//! Contact records and the recipient check.

use crate::text::contains_char;
use vstd::prelude::*;

verus! {

/// One contact found on a detail page.
#[derive(Debug, PartialEq, Eq)]
pub struct ContactRecord {
    pub source_url: String,
    pub email: String,
}

/// The mathematical value of a [`ContactRecord`].
pub struct ContactRecordView {
    pub source_url: Seq<char>,
    pub email: Seq<char>,
}

impl View for ContactRecord {
    type V = ContactRecordView;

    open spec fn view(&self) -> ContactRecordView {
        ContactRecordView { source_url: self.source_url@, email: self.email@ }
    }
}

impl Clone for ContactRecord {
    fn clone(&self) -> (copy: ContactRecord)
        ensures
            copy == *self,
    {
        ContactRecord { source_url: self.source_url.clone(), email: self.email.clone() }
    }
}

/// Whether a record can be sent to: its e-mail field holds an `@`.
pub open spec fn is_valid_recipient(record: ContactRecordView) -> bool {
    record.email.contains('@')
}

impl ContactRecord {
    /// Whether the record can be sent to: its e-mail field holds an `@`.
    pub fn has_valid_recipient(&self) -> (valid: bool)
        ensures
            valid == is_valid_recipient(self@),
    {
        contains_char(self.email.as_str(), '@')
    }

    /// The key by which records are told apart: the e-mail field.
    pub fn identity(&self) -> (identity: &str)
        ensures
            identity@ == self@.email,
    {
        self.email.as_str()
    }
}

/// The values of a list of records.
pub open spec fn records_view(records: Seq<ContactRecord>) -> Seq<ContactRecordView> {
    Seq::new(records.len(), |i: int| records[i]@)
}

/// Whether no two records of the list share an identity.
pub open spec fn distinct_identities(records: Seq<ContactRecordView>) -> bool {
    forall|i: int, j: int|
        0 <= i < records.len() && 0 <= j < records.len() && i != j ==> records[i].email
            != records[j].email
}

} // verus!
