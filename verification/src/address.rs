//! Email addresses, judged by the `lettre` crate.

use vstd::prelude::*;

verus! {

/// What is wrong with a mailbox such as `Name <user@domain>` or `user@domain`, in
/// the words of the `lettre` crate; `None` where it is a mailbox.
pub uninterp spec fn mailbox_error(text: Seq<char>) -> Option<Seq<char>>;

/// Parses `text` as a `lettre::message::Mailbox` through its `FromStr`. Trusted:
/// the outcome depends on the text alone; a parse error is handed on as its
/// message, a mailbox is dropped.
#[verifier::external_body]
pub(crate) fn check_mailbox(text: &str) -> (r: Option<String>)
    ensures
        r.deep_view() == mailbox_error(text@),
{
    match text.parse::<lettre::message::Mailbox>() {
        Ok(_) => None,
        Err(error) => Some(error.to_string()),
    }
}

} // verus!
