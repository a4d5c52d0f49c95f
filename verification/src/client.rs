//! The resource hierarchy: account client, database handle, container
//! handle.
//!
//! An account client owns the shared connection; database and
//! container handles are lightweight views that add identifiers to the
//! chain.  Every remote operation is described by a request descriptor
//! built here from the chain of identifiers; executing a descriptor —
//! the network round trip — happens outside the library.

use vstd::prelude::*;

use crate::errors::{CosmosError, ErrorKind};
use crate::json::{spec_fields_of, spec_lookup, DocValue};
use crate::keys::{
    derive_partition_key, spec_derive_key, spec_opt_key, spec_scalar_key, KeyModel, PartitionKey,
};
use crate::pager::{plan_query, QueryRequest};
use crate::requests::{ContainerRequest, DatabaseRequest, ItemRequest, Operation};

verus! {

/// A metadata-tier listing: a fixed system query, run through the
/// pager without a partition key.  Metadata listings are deliberately
/// kept apart from partitioned item queries, which require a key.
#[derive(Debug)]
pub struct MetadataQuery {
    pub query: String,
}

/// The account client: the endpoint and the shared-key credential the
/// connection is built from.  Handles derived from it are lightweight
/// views that add identifiers; none of them carries connection state
/// of its own.
#[derive(Debug)]
pub struct CosmosClient {
    endpoint: String,
    key: String,
}

impl CosmosClient {
    /// The endpoint the client was constructed for.
    pub closed spec fn spec_endpoint(&self) -> Seq<char> {
        self.endpoint@
    }

    /// The shared-key secret the client was constructed with.
    pub closed spec fn spec_key(&self) -> Seq<char> {
        self.key@
    }

    /// Construct an account client.  Exactly one credential form is
    /// supported — a shared-key secret — and its absence is a
    /// construction-time error.
    pub fn new(url: String, credential: Option<String>) -> (r: Result<CosmosClient, CosmosError>)
        ensures
            match r {
                Ok(c) => credential matches Some(k) && c.spec_endpoint() == url@ && c.spec_key()
                    == k@,
                Err(e) => credential is None && e.kind == ErrorKind::Construction && e.message@
                    == "credential parameter is required"@,
            },
    {
        match credential {
            None => Err(
                CosmosError::new(
                    ErrorKind::Construction,
                    "credential parameter is required".to_owned(),
                ),
            ),
            Some(key) => Ok(CosmosClient { endpoint: url, key }),
        }
    }

    /// The endpoint, for the layer that builds the connection.
    pub fn endpoint(&self) -> (r: &String)
        ensures
            r@ == self.spec_endpoint(),
    {
        &self.endpoint
    }

    /// The shared-key secret, for the layer that builds the connection.
    pub fn credential_key(&self) -> (r: &String)
        ensures
            r@ == self.spec_key(),
    {
        &self.key
    }

    /// A database handle for the given identifier.  No network work is
    /// performed and nothing is checked remotely.
    pub fn get_database_client(&self, database_id: String) -> (d: DatabaseClient)
        ensures
            d.spec_id() == database_id@,
    {
        DatabaseClient::new(self, database_id)
    }

    /// Describe the creation of a database with the given identifier.
    pub fn create_database_request(&self, id: &str) -> (r: DatabaseRequest)
        ensures
            r.op == Operation::Create,
            r.database_id@ == id@,
    {
        DatabaseRequest { op: Operation::Create, database_id: id.to_owned() }
    }

    /// Describe the deletion of the named database.
    pub fn delete_database_request(&self, database_id: &str) -> (r: DatabaseRequest)
        ensures
            r.op == Operation::Delete,
            r.database_id@ == database_id@,
    {
        DatabaseRequest { op: Operation::Delete, database_id: database_id.to_owned() }
    }

    /// The metadata listing of every database in the account: a fixed
    /// system query, paged but not partitioned.
    pub fn list_databases_plan(&self) -> (r: MetadataQuery)
        ensures
            r.query@ == "SELECT * FROM databases"@,
    {
        MetadataQuery { query: "SELECT * FROM databases".to_owned() }
    }
}

/// Map a failure of the underlying client to a classified error: the
/// error's own rendering is kept verbatim for display, and the kind
/// and status follow the status markers found in that text.
pub fn map_error(err: typespec::error::Error) -> (r: CosmosError)
    ensures
        r.message@ == crate::sdk::rendered_of(err),
        r.kind == crate::errors::spec_kind_of_status(
            crate::errors::spec_status_of_message(crate::sdk::rendered_of(err)),
        ),
        r.status == crate::errors::spec_status_of_message(crate::sdk::rendered_of(err)),
{
    let message = crate::sdk::sdk_error_message(&err);
    crate::errors::classify_message(message)
}

/// A database handle: the shared connection plus a database
/// identifier.  A capability view, created on demand and never
/// persisted.
#[derive(Debug)]
pub struct DatabaseClient {
    database_id: String,
}

impl DatabaseClient {
    /// The identifier of the database this handle addresses.
    pub closed spec fn spec_id(&self) -> Seq<char> {
        self.database_id@
    }

    /// A handle on the named database of the given account client.
    /// The handle holds only the identifier chain: connection state
    /// stays with the account.
    pub fn new(_client: &CosmosClient, database_id: String) -> (d: DatabaseClient)
        ensures
            d.spec_id() == database_id@,
    {
        DatabaseClient { database_id }
    }

    /// The identifier of the database.
    pub fn id(&self) -> (r: &String)
        ensures
            r@ == self.spec_id(),
    {
        &self.database_id
    }

    /// Describe the creation of a container.  The partition-key path
    /// list must name at least one path; the first one becomes the
    /// container's declared path.
    pub fn create_container_request(&self, id: &str, partition_key_paths: &Vec<String>) -> (r:
        Result<ContainerRequest, CosmosError>)
        ensures
            match r {
                Ok(req) => partition_key_paths@.len() > 0 && req.op == Operation::Create
                    && req.database_id@ == self.spec_id() && req.container_id@ == id@ && (
                req.partition_key_path matches Some(p) && p == partition_key_paths@[0]),
                Err(e) => partition_key_paths@.len() == 0 && e.kind == ErrorKind::ValueError
                    && e.message@ == "partition_key paths cannot be empty"@,
            },
    {
        if partition_key_paths.len() == 0 {
            return Err(
                CosmosError::new(
                    ErrorKind::ValueError,
                    "partition_key paths cannot be empty".to_owned(),
                ),
            );
        }
        Ok(
            ContainerRequest {
                op: Operation::Create,
                database_id: self.database_id.clone(),
                container_id: id.to_owned(),
                partition_key_path: Some(partition_key_paths[0].clone()),
            },
        )
    }

    /// A container handle for the given identifier, with no declared
    /// partition-key path.  No network work is performed.
    pub fn get_container_client(&self, container_id: String) -> (c: ContainerClient)
        ensures
            c.spec_database_id() == self.spec_id(),
            c.spec_container_id() == container_id@,
            c.spec_pk_path() is None,
    {
        ContainerClient::new(self, container_id)
    }

    /// Describe the deletion of the named container.
    pub fn delete_container_request(&self, container_id: &str) -> (r: ContainerRequest)
        ensures
            r.op == Operation::Delete,
            r.database_id@ == self.spec_id(),
            r.container_id@ == container_id@,
            r.partition_key_path is None,
    {
        ContainerRequest {
            op: Operation::Delete,
            database_id: self.database_id.clone(),
            container_id: container_id.to_owned(),
            partition_key_path: None,
        }
    }

    /// Describe the read of this database's properties.
    pub fn read_request(&self) -> (r: DatabaseRequest)
        ensures
            r.op == Operation::Read,
            r.database_id@ == self.spec_id(),
    {
        DatabaseRequest { op: Operation::Read, database_id: self.database_id.clone() }
    }

    /// The metadata listing of every container in the database: a
    /// fixed system query, paged but not partitioned.
    pub fn list_containers_plan(&self) -> (r: MetadataQuery)
        ensures
            r.query@ == "SELECT * FROM containers"@,
    {
        MetadataQuery { query: "SELECT * FROM containers".to_owned() }
    }

    /// Describe the deletion of this database.
    pub fn delete_request(&self) -> (r: DatabaseRequest)
        ensures
            r.op == Operation::Delete,
            r.database_id@ == self.spec_id(),
    {
        DatabaseRequest { op: Operation::Delete, database_id: self.database_id.clone() }
    }
}

/// A container handle: the shared connection, the database and
/// container identifiers, and — when the container was created through
/// this client — the declared partition-key path.
#[derive(Debug)]
pub struct ContainerClient {
    database_id: String,
    container_id: String,
    partition_key_path: Option<String>,
}

impl ContainerClient {
    /// The identifier of the database this handle addresses.
    pub closed spec fn spec_database_id(&self) -> Seq<char> {
        self.database_id@
    }

    /// The identifier of the container this handle addresses.
    pub closed spec fn spec_container_id(&self) -> Seq<char> {
        self.container_id@
    }

    /// The declared partition-key path, when known.
    pub closed spec fn spec_pk_path(&self) -> Option<Seq<char>> {
        match self.partition_key_path {
            Some(p) => Some(p@),
            None => None,
        }
    }

    /// A handle with no declared partition-key path: derivation falls
    /// back to the fixed candidate field list.
    pub fn new(database: &DatabaseClient, container_id: String) -> (c: ContainerClient)
        ensures
            c.spec_database_id() == database.spec_id(),
            c.spec_container_id() == container_id@,
            c.spec_pk_path() is None,
    {
        ContainerClient {
            database_id: database.id().clone(),
            container_id,
            partition_key_path: None,
        }
    }

    /// A handle that knows the container's declared partition-key
    /// path, captured at container-creation time.
    pub fn with_partition_key_path(
        database: &DatabaseClient,
        container_id: String,
        partition_key_path: String,
    ) -> (c: ContainerClient)
        ensures
            c.spec_database_id() == database.spec_id(),
            c.spec_container_id() == container_id@,
            c.spec_pk_path() == Some(partition_key_path@),
    {
        ContainerClient {
            database_id: database.id().clone(),
            container_id,
            partition_key_path: Some(partition_key_path),
        }
    }

    /// The identifier of the container.
    pub fn id(&self) -> (r: &String)
        ensures
            r@ == self.spec_container_id(),
    {
        &self.container_id
    }

    /// The identifier of the database the container belongs to.
    pub fn database_id(&self) -> (r: &String)
        ensures
            r@ == self.spec_database_id(),
    {
        &self.database_id
    }

    /// The declared partition-key path of this handle, if any.
    pub fn partition_key_path(&self) -> (r: &Option<String>)
        ensures
            self.spec_pk_path() == (match r {
                Some(p) => Some(p@),
                None => None::<Seq<char>>,
            }),
    {
        &self.partition_key_path
    }

    /// Derive the partition key for a document body against this
    /// handle's declared path, honouring an explicit override first.
    fn derive_key(&self, body: &DocValue, explicit_key: Option<PartitionKey>) -> (r: Result<
        PartitionKey,
        CosmosError,
    >)
        ensures
            match r {
                Ok(k) => spec_derive_key(*body, self.spec_pk_path(), spec_opt_key(explicit_key))
                    == Ok::<KeyModel, ErrorKind>(k@),
                Err(e) => spec_derive_key(*body, self.spec_pk_path(), spec_opt_key(explicit_key))
                    == Err::<KeyModel, ErrorKind>(e.kind),
            },
    {
        let declared: Option<&str> = match &self.partition_key_path {
            Some(p) => Some(p.as_str()),
            None => None,
        };
        derive_partition_key(body, declared, explicit_key)
    }

    /// Describe the creation of an item from its body.  The partition
    /// key is derived from the body unless overridden; the service is
    /// asked to echo the created document back.
    pub fn create_item(&self, body: DocValue, explicit_key: Option<PartitionKey>) -> (r: Result<
        ItemRequest,
        CosmosError,
    >)
        ensures
            match r {
                Ok(req) => spec_derive_key(body, self.spec_pk_path(), spec_opt_key(explicit_key))
                    == Ok::<KeyModel, ErrorKind>(req.partition_key@) && req.op == Operation::Create
                    && req.database_id@ == self.spec_database_id() && req.container_id@
                    == self.spec_container_id() && req.item_id is None && req.body == Some(body)
                    && req.content_response_on_write,
                Err(e) => spec_derive_key(body, self.spec_pk_path(), spec_opt_key(explicit_key))
                    == Err::<KeyModel, ErrorKind>(e.kind),
            },
    {
        let partition_key = match self.derive_key(&body, explicit_key) {
            Ok(k) => k,
            Err(e) => {
                return Err(e);
            },
        };
        Ok(
            ItemRequest {
                op: Operation::Create,
                database_id: self.database_id.clone(),
                container_id: self.container_id.clone(),
                item_id: None,
                partition_key,
                body: Some(body),
                content_response_on_write: true,
            },
        )
    }

    /// Describe the upsert of an item from its body, like
    /// [`Self::create_item`] but with create-or-replace semantics.
    pub fn upsert_item(&self, body: DocValue, explicit_key: Option<PartitionKey>) -> (r: Result<
        ItemRequest,
        CosmosError,
    >)
        ensures
            match r {
                Ok(req) => spec_derive_key(body, self.spec_pk_path(), spec_opt_key(explicit_key))
                    == Ok::<KeyModel, ErrorKind>(req.partition_key@) && req.op == Operation::Upsert
                    && req.database_id@ == self.spec_database_id() && req.container_id@
                    == self.spec_container_id() && req.item_id is None && req.body == Some(body)
                    && req.content_response_on_write,
                Err(e) => spec_derive_key(body, self.spec_pk_path(), spec_opt_key(explicit_key))
                    == Err::<KeyModel, ErrorKind>(e.kind),
            },
    {
        let partition_key = match self.derive_key(&body, explicit_key) {
            Ok(k) => k,
            Err(e) => {
                return Err(e);
            },
        };
        Ok(
            ItemRequest {
                op: Operation::Upsert,
                database_id: self.database_id.clone(),
                container_id: self.container_id.clone(),
                item_id: None,
                partition_key,
                body: Some(body),
                content_response_on_write: true,
            },
        )
    }

    /// Describe the replacement of the named item by a new body.  The
    /// partition key is derived from the new body unless overridden.
    pub fn replace_item(
        &self,
        item: String,
        body: DocValue,
        explicit_key: Option<PartitionKey>,
    ) -> (r: Result<ItemRequest, CosmosError>)
        ensures
            match r {
                Ok(req) => spec_derive_key(body, self.spec_pk_path(), spec_opt_key(explicit_key))
                    == Ok::<KeyModel, ErrorKind>(req.partition_key@) && req.op
                    == Operation::Replace && req.database_id@ == self.spec_database_id()
                    && req.container_id@ == self.spec_container_id() && req.item_id == Some(item)
                    && req.body == Some(body) && req.content_response_on_write,
                Err(e) => spec_derive_key(body, self.spec_pk_path(), spec_opt_key(explicit_key))
                    == Err::<KeyModel, ErrorKind>(e.kind),
            },
    {
        let partition_key = match self.derive_key(&body, explicit_key) {
            Ok(k) => k,
            Err(e) => {
                return Err(e);
            },
        };
        Ok(
            ItemRequest {
                op: Operation::Replace,
                database_id: self.database_id.clone(),
                container_id: self.container_id.clone(),
                item_id: Some(item),
                partition_key,
                body: Some(body),
                content_response_on_write: true,
            },
        )
    }

    /// Describe the read of the named item under the given
    /// partition-key scalar.
    pub fn read_item(&self, item: String, partition_key: &DocValue) -> (r: Result<
        ItemRequest,
        CosmosError,
    >)
        ensures
            match r {
                Ok(req) => spec_scalar_key(*partition_key) == Some(req.partition_key@) && req.op
                    == Operation::Read && req.database_id@ == self.spec_database_id()
                    && req.container_id@ == self.spec_container_id() && req.item_id == Some(item)
                    && req.body is None && !req.content_response_on_write,
                Err(e) => spec_scalar_key(*partition_key) is None && e.kind
                    == ErrorKind::TypeError,
            },
    {
        let key = match PartitionKey::from_scalar(partition_key) {
            Ok(k) => k,
            Err(e) => {
                return Err(e);
            },
        };
        Ok(
            ItemRequest {
                op: Operation::Read,
                database_id: self.database_id.clone(),
                container_id: self.container_id.clone(),
                item_id: Some(item),
                partition_key: key,
                body: None,
                content_response_on_write: false,
            },
        )
    }

    /// Describe the deletion of the named item under the given
    /// partition-key scalar.
    pub fn delete_item(&self, item: String, partition_key: &DocValue) -> (r: Result<
        ItemRequest,
        CosmosError,
    >)
        ensures
            match r {
                Ok(req) => spec_scalar_key(*partition_key) == Some(req.partition_key@) && req.op
                    == Operation::Delete && req.database_id@ == self.spec_database_id()
                    && req.container_id@ == self.spec_container_id() && req.item_id == Some(item)
                    && req.body is None && !req.content_response_on_write,
                Err(e) => spec_scalar_key(*partition_key) is None && e.kind
                    == ErrorKind::TypeError,
            },
    {
        let key = match PartitionKey::from_scalar(partition_key) {
            Ok(k) => k,
            Err(e) => {
                return Err(e);
            },
        };
        Ok(
            ItemRequest {
                op: Operation::Delete,
                database_id: self.database_id.clone(),
                container_id: self.container_id.clone(),
                item_id: Some(item),
                partition_key: key,
                body: None,
                content_response_on_write: false,
            },
        )
    }

    /// Plan a query over this container's items.  A partition key is
    /// required — without one the plan is refused and no request is
    /// ever issued; a key scalar of unsupported shape is a type error.
    pub fn query_items(&self, query: String, partition_key: Option<&DocValue>) -> (r: Result<
        QueryRequest,
        CosmosError,
    >)
        ensures
            match partition_key {
                None => r matches Err(e) && e.kind == ErrorKind::ValueError && e.message@
                    == "partition_key is required for queries. For cross-partition queries, this will be supported in a future update."@,
                Some(v) => match spec_scalar_key(*v) {
                    None => r matches Err(e) && e.kind == ErrorKind::TypeError,
                    Some(m) => r matches Ok(q) && q.partition_key@ == m && q.query == query,
                },
            },
    {
        match partition_key {
            None => plan_query(query, None),
            Some(v) => {
                let key = match PartitionKey::from_scalar(v) {
                    Ok(k) => k,
                    Err(e) => {
                        return Err(e);
                    },
                };
                plan_query(query, Some(key))
            },
        }
    }

    /// The partial-document patch family is not supported by this
    /// client.
    pub fn patch_item(&self) -> (r: Result<ItemRequest, CosmosError>)
        ensures
            r matches Err(e) && e.kind == ErrorKind::NotImplemented && e.message@
                == "patch_item is not yet implemented"@,
    {
        Err(
            CosmosError::new(
                ErrorKind::NotImplemented,
                "patch_item is not yet implemented".to_owned(),
            ),
        )
    }

    /// The locally-known properties of this container: an object
    /// carrying its identifier.
    pub fn read(&self) -> (r: DocValue)
        ensures
            spec_fields_of(r).len() == 1,
            spec_lookup(spec_fields_of(r), "id"@) matches Some(v) && v matches DocValue::Text(t)
                && t@ == self.spec_container_id(),
    {
        let mut fields: Vec<(String, DocValue)> = Vec::new();
        fields.push(("id".to_owned(), DocValue::Text(self.container_id.clone())));
        DocValue::Object(fields)
    }

    /// Describe the deletion of this container.
    pub fn delete_request(&self) -> (r: ContainerRequest)
        ensures
            r.op == Operation::Delete,
            r.database_id@ == self.spec_database_id(),
            r.container_id@ == self.spec_container_id(),
            r.partition_key_path is None,
    {
        ContainerRequest {
            op: Operation::Delete,
            database_id: self.database_id.clone(),
            container_id: self.container_id.clone(),
            partition_key_path: None,
        }
    }
}

} // verus!
