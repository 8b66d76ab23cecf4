//! Attachments: files kept beside the records of a run.

use vstd::prelude::*;
use vstd::string::StringExecFns;

verus! {

/// Where the bytes of an attachment are kept.
#[derive(Clone, Copy, Debug, PartialEq, Eq, Structural)]
pub enum StorageType {
    InBuild,
    S3,
    GCS,
}

/// What an attachment is kept for.
#[derive(Clone, Copy, Debug, PartialEq, Eq, Structural)]
pub enum StorageCategory {
    Evidence,
    MockData,
    GCS,
}

/// An attachment.
#[derive(Debug)]
pub struct Model {
    pub id: u128,
    pub category: StorageCategory,
    /// The record that the attachment belongs to.
    pub reference_id: Option<u128>,
    pub path: String,
    pub name: String,
    pub desc: Option<String>,
    pub attachment: Option<Vec<u8>>,
}

impl StorageType {
    /// The text that stands for the value in storage.
    pub open spec fn code(self) -> Seq<char> {
        match self {
            StorageType::InBuild => "IB"@,
            StorageType::S3 => "s3"@,
            StorageType::GCS => "GCS"@,
        }
    }

    /// The text that stands for the value in storage.
    pub fn to_value(&self) -> (text: String)
        ensures
            text@ == self.code(),
    {
        match self {
            StorageType::InBuild => String::from_str("IB"),
            StorageType::S3 => String::from_str("s3"),
            StorageType::GCS => String::from_str("GCS"),
        }
    }

    /// The value that a text of storage stands for, if it stands for one.
    pub fn try_from_value(text: &String) -> (value: Option<StorageType>)
        ensures
            value matches Some(kind) ==> kind.code() == text@,
            value is None ==> forall|kind: StorageType| kind.code() != text@,
    {
        if *text == String::from_str("IB") {
            Some(StorageType::InBuild)
        } else if *text == String::from_str("s3") {
            Some(StorageType::S3)
        } else if *text == String::from_str("GCS") {
            Some(StorageType::GCS)
        } else {
            None
        }
    }
}

impl StorageCategory {
    /// The text that stands for the value in storage.
    pub open spec fn code(self) -> Seq<char> {
        match self {
            StorageCategory::Evidence => "Evidence"@,
            StorageCategory::MockData => "MockData"@,
            StorageCategory::GCS => "GCS"@,
        }
    }

    /// The text that stands for the value in storage.
    pub fn to_value(&self) -> (text: String)
        ensures
            text@ == self.code(),
    {
        match self {
            StorageCategory::Evidence => String::from_str("Evidence"),
            StorageCategory::MockData => String::from_str("MockData"),
            StorageCategory::GCS => String::from_str("GCS"),
        }
    }

    /// The value that a text of storage stands for, if it stands for one.
    pub fn try_from_value(text: &String) -> (value: Option<StorageCategory>)
        ensures
            value matches Some(kind) ==> kind.code() == text@,
            value is None ==> forall|kind: StorageCategory| kind.code() != text@,
    {
        if *text == String::from_str("Evidence") {
            Some(StorageCategory::Evidence)
        } else if *text == String::from_str("MockData") {
            Some(StorageCategory::MockData)
        } else if *text == String::from_str("GCS") {
            Some(StorageCategory::GCS)
        } else {
            None
        }
    }
}

} // verus!
