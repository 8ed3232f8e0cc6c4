//! Routing of a record's origin tag to the file sink that must receive it.
//!
//! A tag that begins with the application's own identifier or with the host
//! framework's identifier is backend-origin; any tag not wrapped in the
//! frontend marker (a leading bracket) also defaults to backend-origin; only
//! a tag wrapped in the frontend marker is routed to the frontend sink.

use vstd::prelude::*;

verus! {

/// The file sink a record's origin tag routes it to. The console sinks are
/// unfiltered and receive every record regardless of this choice.
#[derive(Clone, Copy, PartialEq, Eq, Structural, Debug)]
pub enum SinkId {
    Backend,
    Frontend,
}

/// A tag is frontend-origin exactly when it is wrapped in the frontend
/// marker: a leading `[`.
pub open spec fn is_frontend_tag(tag: Seq<char>) -> bool {
    "["@.is_prefix_of(tag)
}

/// The routing rule, in priority order: known backend identifiers first,
/// then the default-to-backend rule for unmarked tags, and frontend last.
pub open spec fn classify(tag: Seq<char>) -> SinkId {
    if "postium_mail"@.is_prefix_of(tag) || "tauri"@.is_prefix_of(tag) {
        SinkId::Backend
    } else if !"["@.is_prefix_of(tag) {
        SinkId::Backend
    } else {
        SinkId::Frontend
    }
}

/// A tag routes to the frontend sink exactly when it is wrapped in the
/// frontend marker; every other tag routes to the backend sink. Since
/// `classify` yields a single sink, a record reaches exactly one of the two
/// file sinks.
pub proof fn lemma_frontend_iff_marker(tag: Seq<char>)
    ensures
        classify(tag) == SinkId::Frontend <==> is_frontend_tag(tag),
        classify(tag) == SinkId::Backend <==> !is_frontend_tag(tag),
{
    reveal_strlit("postium_mail");
    reveal_strlit("tauri");
    reveal_strlit("[");
    if is_frontend_tag(tag) {
        assert(tag.subrange(0, 1)[0] == tag[0]);
        assert(tag[0] == '[');
        if "postium_mail"@.is_prefix_of(tag) {
            assert(tag.subrange(0, 12)[0] == tag[0]);
        }
        if "tauri"@.is_prefix_of(tag) {
            assert(tag.subrange(0, 5)[0] == tag[0]);
        }
    }
}

fn str_starts_with(s: &str, p: &str) -> (r: bool)
    ensures
        r == p@.is_prefix_of(s@),
{
    let n = p.unicode_len();
    if s.unicode_len() < n {
        return false;
    }
    let mut i: usize = 0;
    while i < n
        invariant
            0 <= i <= n,
            n == p@.len(),
            n <= s@.len(),
            forall|j: int| 0 <= j < i ==> s@[j] == p@[j],
        decreases n - i,
    {
        if s.get_char(i) != p.get_char(i) {
            proof {
                assert(s@.subrange(0, n as int)[i as int] == s@[i as int]);
            }
            return false;
        }
        i += 1;
    }
    proof {
        assert(p@ =~= s@.subrange(0, n as int));
    }
    true
}

/// Route an origin tag to its file sink.
pub fn classify_tag(tag: &str) -> (r: SinkId)
    ensures
        r == classify(tag@),
{
    if str_starts_with(tag, "postium_mail") || str_starts_with(tag, "tauri") {
        SinkId::Backend
    } else if !str_starts_with(tag, "[") {
        SinkId::Backend
    } else {
        SinkId::Frontend
    }
}

} // verus!
