//! The identity-key scheme of the durable store. One issue owns two keys —
//! `"{issueId}:channel"` for its thread and `"{issueId}:message"` for the
//! anchor message the thread was spawned from — and each comment owns
//! `"{commentId}:cmt_msg"` for the message that mirrors it. The suffixes keep
//! the three families apart for any pair of ids, which the lemmas below prove.

use vstd::prelude::*;
use crate::digits::{dec_seq, lemma_dec_seq_injective, u64_to_dec};

verus! {

/// The key under which an issue's thread id is stored.
pub open spec fn channel_key_seq(id: u64) -> Seq<char> {
    dec_seq(id as nat) + ":channel"@
}

/// The key under which an issue's anchor-message id is stored.
pub open spec fn message_key_seq(id: u64) -> Seq<char> {
    dec_seq(id as nat) + ":message"@
}

/// The key under which a comment's mirror-message id is stored.
pub open spec fn comment_key_seq(id: u64) -> Seq<char> {
    dec_seq(id as nat) + ":cmt_msg"@
}

/// Builds the thread key for an issue id.
pub fn channel_key(id: u64) -> (s: String)
    ensures
        s@ == channel_key_seq(id),
{
    u64_to_dec(id).concat(":channel")
}

/// Builds the anchor-message key for an issue id.
pub fn message_key(id: u64) -> (s: String)
    ensures
        s@ == message_key_seq(id),
{
    u64_to_dec(id).concat(":message")
}

/// Builds the mirror-message key for a comment id.
pub fn comment_key(id: u64) -> (s: String)
    ensures
        s@ == comment_key_seq(id),
{
    u64_to_dec(id).concat(":cmt_msg")
}

/// The thread mapping of an issue, as a store snapshot reports it.
pub open spec fn thread_of(m: Map<Seq<char>, u64>, id: u64) -> Option<u64> {
    if m.contains_key(channel_key_seq(id)) {
        Some(m[channel_key_seq(id)])
    } else {
        None
    }
}

/// The anchor-message mapping of an issue.
pub open spec fn anchor_of(m: Map<Seq<char>, u64>, id: u64) -> Option<u64> {
    if m.contains_key(message_key_seq(id)) {
        Some(m[message_key_seq(id)])
    } else {
        None
    }
}

/// The mirror-message mapping of a comment.
pub open spec fn comment_msg_of(m: Map<Seq<char>, u64>, id: u64) -> Option<u64> {
    if m.contains_key(comment_key_seq(id)) {
        Some(m[comment_key_seq(id)])
    } else {
        None
    }
}

proof fn lemma_suffix_cancel(a: u64, b: u64, suf: Seq<char>)
    requires
        dec_seq(a as nat) + suf == dec_seq(b as nat) + suf,
    ensures
        a == b,
{
    let sa = dec_seq(a as nat);
    let sb = dec_seq(b as nat);
    assert((sa + suf).len() == (sb + suf).len());
    assert(sa.len() == sb.len());
    assert(sa =~= (sa + suf).subrange(0, sa.len() as int));
    assert(sb =~= (sb + suf).subrange(0, sb.len() as int));
    lemma_dec_seq_injective(a as nat, b as nat);
}

/// Within one key family, distinct ids give distinct keys.
pub proof fn lemma_keys_injective(a: u64, b: u64)
    requires
        a != b,
    ensures
        channel_key_seq(a) != channel_key_seq(b),
        message_key_seq(a) != message_key_seq(b),
        comment_key_seq(a) != comment_key_seq(b),
{
    if channel_key_seq(a) == channel_key_seq(b) {
        lemma_suffix_cancel(a, b, ":channel"@);
    }
    if message_key_seq(a) == message_key_seq(b) {
        lemma_suffix_cancel(a, b, ":message"@);
    }
    if comment_key_seq(a) == comment_key_seq(b) {
        lemma_suffix_cancel(a, b, ":cmt_msg"@);
    }
}

/// The three key families never collide, whatever the two ids are: a key
/// always ends in the last letter of its family's suffix, and the three
/// suffixes end in three different letters.
pub proof fn lemma_key_families_disjoint(a: u64, b: u64)
    ensures
        channel_key_seq(a) != message_key_seq(b),
        channel_key_seq(a) != comment_key_seq(b),
        message_key_seq(a) != comment_key_seq(b),
{
    reveal_strlit(":channel");
    reveal_strlit(":message");
    reveal_strlit(":cmt_msg");
    let ck = channel_key_seq(a);
    let mk = message_key_seq(b);
    let gk = comment_key_seq(b);
    let mk2 = message_key_seq(a);
    assert(ck[ck.len() - 1] == 'l');
    assert(mk[mk.len() - 1] == 'e');
    assert(gk[gk.len() - 1] == 'g');
    assert(mk2[mk2.len() - 1] == 'e');
}

} // verus!
