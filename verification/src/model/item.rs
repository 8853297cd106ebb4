use crate::model::partition_key::PartitionKey;
use crate::model::sort_key::SortKey;
use time::OffsetDateTime;
use vstd::prelude::*;

verus! {

/// `time::OffsetDateTime`, a point in time with its offset from UTC. The
/// store carries timestamps through and never looks inside one.
#[verifier::external_type_specification]
#[verifier::external_body]
pub struct ExOffsetDateTime(time::OffsetDateTime);

/// The stored record, addressed by its partition key and sort key.
#[derive(Debug)]
pub struct Item {
    pub partition_key: PartitionKey,
    pub sort_key: SortKey,
    pub created_at: OffsetDateTime,
    pub updated_at: OffsetDateTime,
    pub version: u64,
    pub value: Vec<u8>,
}

/// An item as plain mathematical data.
pub struct ItemView {
    pub partition_key: Seq<char>,
    pub sort_key: Seq<char>,
    pub created_at: OffsetDateTime,
    pub updated_at: OffsetDateTime,
    pub version: nat,
    pub value: Seq<u8>,
}

impl View for Item {
    type V = ItemView;

    open spec fn view(&self) -> ItemView {
        ItemView {
            partition_key: self.partition_key@,
            sort_key: self.sort_key@,
            created_at: self.created_at,
            updated_at: self.updated_at,
            version: self.version as nat,
            value: self.value@,
        }
    }
}

impl Clone for Item {
    fn clone(&self) -> (r: Self)
        ensures
            r@ == self@,
    {
        let value = self.value.clone();
        assert(value@ =~= self.value@);
        Item {
            partition_key: self.partition_key.clone(),
            sort_key: self.sort_key.clone(),
            created_at: self.created_at,
            updated_at: self.updated_at,
            version: self.version,
            value,
        }
    }
}

} // verus!
