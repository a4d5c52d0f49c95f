//! Request descriptors and response envelopes.
//!
//! A logical operation is described by a plain value: which operation,
//! against which tier of the resource hierarchy, with which partition
//! key and body.  The descriptor also composes the resource path from
//! the chain of identifiers.  The transport that executes a descriptor
//! lives outside the library; what comes back is a response envelope
//! of plain values, whose headers were captured before the body was
//! consumed.

use vstd::prelude::*;

use crate::errors::{CosmosError, ErrorKind};
use crate::json::DocValue;
use crate::keys::PartitionKey;

verus! {

/// The operation families a request can carry.
#[derive(Clone, Copy, PartialEq, Eq, Structural, Debug)]
pub enum Operation {
    Create,
    Read,
    Upsert,
    Replace,
    Delete,
}

/// The path of a database resource: `dbs/{database}`.
pub fn database_path(database_id: &str) -> (r: String)
    ensures
        r@ == "dbs/"@ + database_id@,
{
    let mut p = String::from_str("dbs/");
    p.append(database_id);
    p
}

/// The path of a container resource: `dbs/{database}/colls/{container}`.
pub fn container_path(database_id: &str, container_id: &str) -> (r: String)
    ensures
        r@ == "dbs/"@ + database_id@ + "/colls/"@ + container_id@,
{
    let mut p = database_path(database_id);
    p.append("/colls/");
    p.append(container_id);
    p
}

/// The path of an item resource: `dbs/{database}/colls/{container}/docs/{item}`.
pub fn item_path(database_id: &str, container_id: &str, item_id: &str) -> (r: String)
    ensures
        r@ == "dbs/"@ + database_id@ + "/colls/"@ + container_id@ + "/docs/"@ + item_id@,
{
    let mut p = container_path(database_id, container_id);
    p.append("/docs/");
    p.append(item_id);
    p
}

/// An operation against a database resource.
#[derive(Debug)]
pub struct DatabaseRequest {
    pub op: Operation,
    pub database_id: String,
}

impl DatabaseRequest {
    /// The path of the database the request names.
    pub fn resource_path(&self) -> (r: String)
        ensures
            r@ == "dbs/"@ + self.database_id@,
    {
        database_path(self.database_id.as_str())
    }
}

/// An operation against a container resource.  For a create, the
/// declared partition-key path rides along.
#[derive(Debug)]
pub struct ContainerRequest {
    pub op: Operation,
    pub database_id: String,
    pub container_id: String,
    pub partition_key_path: Option<String>,
}

impl ContainerRequest {
    /// The path of the container the request names.
    pub fn resource_path(&self) -> (r: String)
        ensures
            r@ == "dbs/"@ + self.database_id@ + "/colls/"@ + self.container_id@,
    {
        container_path(self.database_id.as_str(), self.container_id.as_str())
    }
}

/// An operation against an item.  Create and upsert name the item by
/// the body alone; read, replace and delete name it by `item_id`.
#[derive(Debug)]
pub struct ItemRequest {
    pub op: Operation,
    pub database_id: String,
    pub container_id: String,
    pub item_id: Option<String>,
    pub partition_key: PartitionKey,
    pub body: Option<DocValue>,
    /// Echo-on-write: ask the service to return the resulting document
    /// in the response body.
    pub content_response_on_write: bool,
}

impl ItemRequest {
    /// The path of the resource the request is addressed to: the named
    /// item when there is one, the item collection of the container
    /// otherwise.
    pub fn resource_path(&self) -> (r: String)
        ensures
            match self.item_id {
                Some(id) => r@ == "dbs/"@ + self.database_id@ + "/colls/"@ + self.container_id@
                    + "/docs/"@ + id@,
                None => r@ == "dbs/"@ + self.database_id@ + "/colls/"@ + self.container_id@
                    + "/docs"@,
            },
    {
        match &self.item_id {
            Some(id) => item_path(
                self.database_id.as_str(),
                self.container_id.as_str(),
                id.as_str(),
            ),
            None => {
                let mut p = container_path(self.database_id.as_str(), self.container_id.as_str());
                p.append("/docs");
                p
            },
        }
    }
}

/// What an executed operation yields: status metadata and, when the
/// operation carries one, a decoded body.  The transport captures the
/// headers before consuming the body, because the body is a
/// single-consumption stream.
#[derive(Debug)]
pub struct ResponseEnvelope {
    pub status: u16,
    pub headers: Vec<(String, String)>,
    pub body: Option<DocValue>,
}

/// Split a response that is owed a body into that body and the status
/// metadata; a response without a decodable body is a value error.
pub fn finish_item_response(env: ResponseEnvelope) -> (r: Result<
    (DocValue, Vec<(String, String)>),
    CosmosError,
>)
    ensures
        match r {
            Ok(p) => env.body matches Some(b) && p.0 == b && p.1 == env.headers,
            Err(e) => env.body is None && e.kind == ErrorKind::ValueError && e.message@
                == "Failed to deserialize response"@,
        },
{
    match env.body {
        Some(b) => Ok((b, env.headers)),
        None => Err(
            CosmosError::new(ErrorKind::ValueError, "Failed to deserialize response".to_owned()),
        ),
    }
}

} // verus!
