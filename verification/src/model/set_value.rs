use crate::model::sort_key::SortKey;
use crate::model::write_condition::beyond_stored_versions;
use crate::model::write_condition::WriteCondition;
use vstd::prelude::*;

verus! {

/// One write of a batch: the sort key to write under, the condition that
/// must hold, and the new value.
pub struct SetValue {
    pub sort_key: SortKey,
    pub write_condition: WriteCondition,
    pub value: Vec<u8>,
}

/// A write as plain mathematical data.
pub struct SetValueView {
    pub sort_key: Seq<char>,
    pub expected: Option<u64>,
    pub value: Seq<u8>,
}

impl View for SetValue {
    type V = SetValueView;

    open spec fn view(&self) -> SetValueView {
        SetValueView {
            sort_key: self.sort_key@,
            expected: self.write_condition.version_equals,
            value: self.value@,
        }
    }
}

/// Some write of the batch expects a version that no stored version can
/// equal.
pub open spec fn holds_unmatchable(set_values: Seq<SetValue>) -> bool {
    exists|i: int|
        0 <= i < set_values.len() && beyond_stored_versions(
            (#[trigger] set_values[i]).write_condition.version_equals,
        )
}

} // verus!
