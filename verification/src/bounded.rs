//! The fixed-capacity containers of the `heapless` crate that this library
//! keeps its configuration in.
//!
//! Nothing in this file is proved. Each contract restates what the source of
//! `heapless` shows of the function that the body calls.
use vstd::prelude::*;
use vstd::string::StringSliceAdditionalSpecFns;

verus! {

/// `heapless::Vec`: a list of at most `N` items, kept in place.
#[verifier::external_type_specification]
#[verifier::external_body]
#[verifier::reject_recursive_types(T)]
pub struct ExFixedVec<T, const N: usize>(heapless::Vec<T, N>);

/// `heapless::String`: a text of at most `N` bytes, kept in place.
#[verifier::external_type_specification]
#[verifier::external_body]
pub struct ExFixedString<const N: usize>(heapless::String<N>);

/// The topic names that a list holds, in the order in which they were pushed.
pub uninterp spec fn topic_names(list: heapless::Vec<&'static str, 5>) -> Seq<Seq<char>>;

/// The text that a network name holds.
pub uninterp spec fn network_name_text(name: heapless::String<32>) -> Seq<char>;

/// The text that a network secret holds.
pub uninterp spec fn network_secret_text(secret: heapless::String<64>) -> Seq<char>;

/// `heapless::Vec::new`: a list that holds nothing.
#[verifier::external_body]
pub(crate) fn empty_topic_list() -> (list: heapless::Vec<&'static str, 5>)
    ensures
        topic_names(list) == Seq::<Seq<char>>::empty(),
{
    heapless::Vec::new()
}

/// `heapless::Vec::push`: with fewer than five names in the list, `name` goes
/// to its end; a full list stays as it is and hands `name` back. It never
/// panics.
#[verifier::external_body]
pub(crate) fn push_topic_name(
    list: &mut heapless::Vec<&'static str, 5>,
    name: &'static str,
) -> (pushed: Result<(), &'static str>)
    ensures
        pushed is Ok <==> topic_names(*old(list)).len() < 5,
        pushed is Ok ==> topic_names(*final(list)) == topic_names(*old(list)).push(name@),
        pushed is Err ==> topic_names(*final(list)) == topic_names(*old(list)),
        pushed matches Err(back) ==> back@ == name@,
    no_unwind
{
    list.push(name)
}

/// `heapless::Vec::as_slice`: the names of the list, one slice element each,
/// in the same order.
#[verifier::external_body]
pub(crate) fn topic_name_slice<'a>(list: &'a heapless::Vec<&'static str, 5>) -> (names: &'a [
    &'static str
])
    ensures
        names@.len() == topic_names(*list).len(),
        forall|i: int| 0 <= i < names@.len() ==> (#[trigger] names@[i])@ == topic_names(*list)[i],
{
    list.as_slice()
}

/// `heapless::String::try_from` at capacity 32: a text of at most 32 bytes is
/// kept whole; a longer one is refused.
#[verifier::external_body]
pub(crate) fn network_name_from(text: &str) -> (name: Result<heapless::String<32>, ()>)
    ensures
        name is Ok <==> text.spec_bytes().len() <= 32,
        name matches Ok(kept) ==> network_name_text(kept) == text@,
{
    heapless::String::try_from(text)
}

/// `heapless::String::try_from` at capacity 64: a text of at most 64 bytes is
/// kept whole; a longer one is refused.
#[verifier::external_body]
pub(crate) fn network_secret_from(text: &str) -> (secret: Result<heapless::String<64>, ()>)
    ensures
        secret is Ok <==> text.spec_bytes().len() <= 64,
        secret matches Ok(kept) ==> network_secret_text(kept) == text@,
{
    heapless::String::try_from(text)
}

/// `heapless::String::as_str` at capacity 32: the text that the name holds.
#[verifier::external_body]
pub(crate) fn network_name_str(name: &heapless::String<32>) -> (text: &str)
    ensures
        text@ == network_name_text(*name),
{
    name.as_str()
}

/// `heapless::String::as_str` at capacity 64: the text that the secret holds.
#[verifier::external_body]
pub(crate) fn network_secret_str(secret: &heapless::String<64>) -> (text: &str)
    ensures
        text@ == network_secret_text(*secret),
{
    secret.as_str()
}

} // verus!
