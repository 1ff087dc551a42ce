//! User contexts: the handle tables of the threads that make requests.

use vstd::hash_map::StringHashMap;
use vstd::prelude::*;
use vstd::string::StringExecFns;

use crate::kernel::{uctx_create, Kernel, KernelCall};

verus! {

/// A user context.
pub type UctxT = u32;

/// The address of a user context; zero is the null address.
pub type UctxAddr = usize;

/// What the context of a thread is filed under.
pub open spec fn tls_key_text(thread: Seq<char>) -> Seq<char> {
    "uctx_tls_"@ + thread
}

/// The key of a thread's context, from the name of the thread's identifier.
pub fn tls_key(thread: &str) -> (key: String)
    ensures
        key@ == "uctx_tls_"@ + thread@,
        key@ == tls_key_text(thread@),
{
    "uctx_tls_".to_string().concat(thread)
}

/// The contexts that are filed hold a usable one under `key`.
pub open spec fn has_context(contexts: Map<Seq<char>, UctxAddr>, key: Seq<char>) -> bool {
    contexts.contains_key(key) && contexts[key] != 0
}

/// The context that a search under `key` gives; a context that had to be created is null.
pub open spec fn found(contexts: Map<Seq<char>, UctxAddr>, key: Seq<char>) -> UctxAddr {
    if has_context(contexts, key) {
        contexts[key]
    } else {
        0
    }
}

/// The contexts that are filed after a search under `key`.
pub open spec fn filed(contexts: Map<Seq<char>, UctxAddr>, key: Seq<char>) -> Map<
    Seq<char>,
    UctxAddr,
> {
    if has_context(contexts, key) {
        contexts
    } else {
        contexts.insert(key, 0)
    }
}

/// Finds the context filed under `key`. Where there is none, or only the null address, a new
/// one is created and filed.
pub fn find_or_create_uctx(
    kernel: &mut Kernel,
    tls: &mut StringHashMap<UctxAddr>,
    key: String,
) -> (uctx: UctxAddr)
    ensures
        uctx == found(old(tls)@, key@),
        final(tls)@ == filed(old(tls)@, key@),
        final(kernel)@ == (if has_context(old(tls)@, key@) {
            old(kernel)@
        } else {
            old(kernel)@.push(KernelCall::CreateContext { slot: Some(0) })
        }),
        old(tls)@.contains_key(key@) && old(tls)@[key@] != 0 ==> uctx == old(tls)@[key@]
            && final(tls)@ == old(tls)@ && final(kernel)@ == old(kernel)@,
        !old(tls)@.contains_key(key@) || old(tls)@[key@] == 0 ==> uctx == 0 && final(tls)@ == old(
            tls,
        )@.insert(key@, 0) && final(kernel)@ == old(kernel)@.push(
            KernelCall::CreateContext { slot: Some(0) },
        ),
{
    let mut found: UctxAddr = 0;
    if let Some(uctx) = tls.get(key.as_str()) {
        found = *uctx;
    }
    if found == 0 {
        let mut uctx: UctxT = 0;
        uctx_create(kernel, Some(&mut uctx));
        found = uctx as UctxAddr;
        tls.insert(key, found);
    }
    found
}

/// The context of the thread whose identifier is called `thread`. No context outlives the call
/// that created it, so each call creates one.
pub fn current_uctx(kernel: &mut Kernel, thread: &str) -> (uctx: UctxAddr)
    ensures
        uctx == 0,
        final(kernel)@ == old(kernel)@.push(KernelCall::CreateContext { slot: Some(0) }),
{
    let mut tls: StringHashMap<UctxAddr> = StringHashMap::new();
    find_or_create_uctx(kernel, &mut tls, tls_key(thread))
}

/// The context that a search gives is filed under its key, and stays so: a second search gives
/// the same context and files nothing new. The contexts under other keys are left alone.
pub proof fn law_context_stays_filed(
    contexts: Map<Seq<char>, UctxAddr>,
    key: Seq<char>,
    other: Seq<char>,
)
    ensures
        filed(contexts, key).contains_key(key),
        filed(contexts, key)[key] == found(contexts, key),
        found(filed(contexts, key), key) == found(contexts, key),
        filed(filed(contexts, key), key) == filed(contexts, key),
        other != key ==> found(filed(contexts, key), other) == found(contexts, other),
{
    assert(filed(filed(contexts, key), key) =~= filed(contexts, key));
}

/// Whatever its address, a context that was filed is what a search gives, and the search leaves
/// the files alone. Only the null address counts as no context: then null is filed in its place.
pub proof fn law_filed_context_is_found(
    contexts: Map<Seq<char>, UctxAddr>,
    key: Seq<char>,
    address: UctxAddr,
)
    ensures
        found(contexts.insert(key, address), key) == address,
        address != 0 ==> has_context(contexts.insert(key, address), key),
        filed(contexts.insert(key, address), key) == contexts.insert(key, address),
        !has_context(contexts.insert(key, 0), key),
        !has_context(contexts.remove(key), key),
        found(contexts.remove(key), key) == 0,
        filed(contexts.remove(key), key) == contexts.insert(key, 0),
{
    assert(filed(contexts.insert(key, address), key) =~= contexts.insert(key, address));
    assert(contexts.remove(key).insert(key, 0) =~= contexts.insert(key, 0));
}

/// Threads whose identifiers have different names have contexts under different keys.
pub proof fn law_keys_are_distinct(thread: Seq<char>, other: Seq<char>)
    ensures
        tls_key_text(thread) == tls_key_text(other) <==> thread == other,
{
    let prefix = "uctx_tls_"@;
    assert(tls_key_text(thread).skip(prefix.len() as int) =~= thread);
    assert(tls_key_text(other).skip(prefix.len() as int) =~= other);
}

} // verus!
