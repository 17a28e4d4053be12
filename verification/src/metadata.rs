//! Where cargo puts what it builds, read from the answer that
//! `cargo metadata` gives.
//!
//! The answer is a JSON object with a member `target_directory`. It is read
//! with `miniserde`, whose reading is taken on trust; what is made of the
//! member is decided here.

use vstd::prelude::*;

verus! {

/// A JSON object as `miniserde` holds it.
#[verifier::external_type_specification]
#[verifier::external_body]
pub struct ExObject(miniserde::json::Object);

/// A JSON value as `miniserde` holds it. An `Object` is a map of these.
#[verifier::external_type_specification]
#[verifier::external_body]
pub struct ExValue(miniserde::json::Value);

/// What a member of a JSON object is, with its text where it is one.
#[derive(Debug, PartialEq, Eq)]
pub enum Member {
    Null,
    Bool,
    Number,
    Text(String),
    Array,
    Dictionary,
}

/// A [`Member`] as mathematics.
pub enum MemberView {
    Null,
    Bool,
    Number,
    Text(Seq<char>),
    Array,
    Dictionary,
}

impl View for Member {
    type V = MemberView;

    open spec fn view(&self) -> MemberView {
        match self {
            Member::Null => MemberView::Null,
            Member::Bool => MemberView::Bool,
            Member::Number => MemberView::Number,
            Member::Text(text) => MemberView::Text(text@),
            Member::Array => MemberView::Array,
            Member::Dictionary => MemberView::Dictionary,
        }
    }
}

/// Why no target directory could be read.
#[derive(Debug, Clone, Copy, PartialEq, Eq, Structural)]
pub enum MetadataError {
    /// The answer is 2 GiB long or longer, and was not read.
    TooLong,
    /// The answer is not a JSON object.
    NotAnObject,
    /// The object has no member `target_directory`.
    NoTargetDirectory,
    /// The member `target_directory` is not a string.
    NotText,
}

/// The length in bytes from which on an answer is not read.
pub const METADATA_LIMIT: usize = 0x8000_0000;

/// The members of the object that `miniserde` reads from `text`, each by its
/// name; `None` where it reads none.
pub uninterp spec fn parsed_members(text: Seq<char>) -> Option<Map<Seq<char>, MemberView>>;

/// The members that an object holds, each by its name.
pub uninterp spec fn members(object: miniserde::json::Object) -> Map<Seq<char>, MemberView>;

/// The name of the member that holds the target directory.
pub open spec fn target_directory_key() -> Seq<char> {
    "target_directory"@
}

/// The target directory that a member stands for.
pub open spec fn directory(member: Option<MemberView>) -> Result<Seq<char>, MetadataError> {
    match member {
        None => Err(MetadataError::NoTargetDirectory),
        Some(MemberView::Text(path)) => Ok(path),
        Some(_) => Err(MetadataError::NotText),
    }
}

/// The target directory that the members of an answer give.
pub open spec fn target_directory(parsed: Option<Map<Seq<char>, MemberView>>) -> Result<
    Seq<char>,
    MetadataError,
> {
    match parsed {
        None => Err(MetadataError::NotAnObject),
        Some(members) => directory(
            if members.contains_key(target_directory_key()) {
                Some(members[target_directory_key()])
            } else {
                None
            },
        ),
    }
}

/// What a directory that was read, or the failure to read one, is as
/// mathematics.
pub open spec fn directory_view(result: Result<String, MetadataError>) -> Result<
    Seq<char>,
    MetadataError,
> {
    match result {
        Ok(path) => Ok(path@),
        Err(error) => Err(error),
    }
}

/// `miniserde::json::from_str`, asked for an `Object`. What it reads is a
/// function of the text alone: it either gives an object, whose members are
/// then those that `parsed_members` names, or fails. Texts of 2 GiB and more
/// are kept from it, because on a number with that many digits its count of
/// them overflows.
#[verifier::external_body]
fn parse_object(text: &str) -> (object: Option<miniserde::json::Object>)
    requires
        text.len() < METADATA_LIMIT,
    ensures
        match object {
            Some(object) => parsed_members(text@) == Some(members(object)),
            None => parsed_members(text@) is None,
        },
{
    miniserde::json::from_str::<miniserde::json::Object>(text).ok()
}

/// `get` on the map that a `miniserde::json::Object` is: the member of that
/// name, if there is one, as a [`Member`].
#[verifier::external_body]
fn member(object: &miniserde::json::Object, name: &str) -> (found: Option<Member>)
    ensures
        match found {
            Some(member) => members(*object).contains_key(name@) && members(*object)[name@]
                == member@,
            None => !members(*object).contains_key(name@),
        },
{
    match object.get(name) {
        None => None,
        Some(miniserde::json::Value::Null) => Some(Member::Null),
        Some(miniserde::json::Value::Bool(_)) => Some(Member::Bool),
        Some(miniserde::json::Value::Number(_)) => Some(Member::Number),
        Some(miniserde::json::Value::String(text)) => Some(Member::Text(text.clone())),
        Some(miniserde::json::Value::Array(_)) => Some(Member::Array),
        Some(miniserde::json::Value::Object(_)) => Some(Member::Dictionary),
    }
}

/// Says which target directory a member stands for: the text of a member
/// that is a string, and an error for one that is none or is missing.
pub fn directory_of(member: Option<Member>) -> (path: Result<String, MetadataError>)
    ensures
        directory_view(path) == directory(
            match member {
                Some(member) => Some(member@),
                None => None,
            },
        ),
{
    match member {
        None => Err(MetadataError::NoTargetDirectory),
        Some(Member::Text(path)) => Ok(path),
        Some(_) => Err(MetadataError::NotText),
    }
}

/// Reads the target directory from the answer of `cargo metadata`.
pub fn target_dir(metadata: &str) -> (path: Result<String, MetadataError>)
    ensures
        directory_view(path) == if metadata.len() >= METADATA_LIMIT {
            Err(MetadataError::TooLong)
        } else {
            target_directory(parsed_members(metadata@))
        },
{
    if metadata.len() >= METADATA_LIMIT {
        return Err(MetadataError::TooLong);
    }
    match parse_object(metadata) {
        None => Err(MetadataError::NotAnObject),
        Some(object) => directory_of(member(&object, "target_directory")),
    }
}

} // verus!
