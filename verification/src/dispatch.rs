//! The runtime decision the emitted decoder makes, modelled exactly: given
//! the ordered content-type table and the request's declared content type,
//! either fail for a missing content type, dispatch to the first matching
//! entry, or fail for an unsupported one. Matching compares the type/subtype
//! essence only, so a declared parameter suffix never affects the match.

use vstd::prelude::*;

use crate::text::seq_views;

verus! {

/// Whitespace that may surround a content type's essence.
pub open spec fn is_ct_space(c: char) -> bool {
    c == ' ' || c == '\t'
}

fn is_ct_space_char(c: char) -> (r: bool)
    ensures
        r == is_ct_space(c),
{
    c == ' ' || c == '\t'
}

/// The index of the first semicolon, or the length when there is none.
pub open spec fn first_semi(s: Seq<char>) -> int
    decreases s.len(),
{
    if s.len() == 0 {
        0
    } else if s[0] == ';' {
        0
    } else {
        1 + first_semi(s.drop_first())
    }
}

proof fn lemma_first_semi_unique(s: Seq<char>, i: int)
    requires
        0 <= i <= s.len(),
        forall|k: int| 0 <= k < i ==> s[k] != ';',
        i < s.len() ==> s[i] == ';',
    ensures
        i == first_semi(s),
    decreases s.len(),
{
    if s.len() == 0 {
    } else if s[0] == ';' {
        assert(i == 0);
    } else {
        assert(i >= 1);
        let t = s.drop_first();
        assert(forall|k: int| 0 <= k < i - 1 ==> #[trigger] t[k] == s[k + 1]);
        lemma_first_semi_unique(t, i - 1);
    }
}

/// The count of leading whitespace characters.
pub open spec fn lead_ws(s: Seq<char>) -> int
    decreases s.len(),
{
    if s.len() == 0 {
        0
    } else if is_ct_space(s[0]) {
        1 + lead_ws(s.drop_first())
    } else {
        0
    }
}

proof fn lemma_lead_ws_unique(s: Seq<char>, i: int)
    requires
        0 <= i <= s.len(),
        forall|k: int| 0 <= k < i ==> is_ct_space(s[k]),
        i < s.len() ==> !is_ct_space(s[i]),
    ensures
        i == lead_ws(s),
    decreases s.len(),
{
    if s.len() == 0 {
    } else if is_ct_space(s[0]) {
        assert(i >= 1);
        let t = s.drop_first();
        assert(forall|k: int| 0 <= k < i - 1 ==> #[trigger] t[k] == s[k + 1]);
        lemma_lead_ws_unique(t, i - 1);
    } else {
        assert(i == 0);
    }
}

/// One past the last character that is not whitespace; zero when all are.
pub open spec fn trail_ws_end(s: Seq<char>) -> int
    decreases s.len(),
{
    if s.len() == 0 {
        0
    } else if is_ct_space(s.last()) {
        trail_ws_end(s.drop_last())
    } else {
        s.len() as int
    }
}

proof fn lemma_trail_ws_end_unique(s: Seq<char>, j: int)
    requires
        0 <= j <= s.len(),
        forall|k: int| j <= k < s.len() ==> is_ct_space(s[k]),
        j > 0 ==> !is_ct_space(s[j - 1]),
    ensures
        j == trail_ws_end(s),
    decreases s.len(),
{
    if s.len() == 0 {
    } else if is_ct_space(s.last()) {
        assert(j < s.len());
        let t = s.drop_last();
        assert(forall|k: int| j <= k < t.len() ==> #[trigger] t[k] == s[k]);
        lemma_trail_ws_end_unique(t, j);
    } else {
        assert(j == s.len());
    }
}

/// The essence of a declared content type: the part before the first
/// semicolon, with surrounding whitespace removed.
pub open spec fn spec_essence(s: Seq<char>) -> Seq<char> {
    let cut = s.take(first_semi(s));
    let lo = lead_ws(cut);
    let hi = trail_ws_end(cut);
    if lo <= hi {
        cut.subrange(lo, hi)
    } else {
        Seq::empty()
    }
}

/// Computes the essence of a content type's textual form.
pub fn essence_of(s: &str) -> (r: String)
    ensures
        r@ == spec_essence(s@),
{
    let n = s.unicode_len();
    let mut i: usize = 0;
    while i < n && s.get_char(i) != ';'
        invariant
            0 <= i <= n,
            n == s@.len(),
            forall|k: int| 0 <= k < i ==> s@[k] != ';',
        decreases n - i,
    {
        i += 1;
    }
    proof {
        lemma_first_semi_unique(s@, i as int);
    }
    let cut = s.substring_char(0, i);
    proof {
        assert(cut@ =~= s@.take(first_semi(s@)));
    }
    let m = i;
    let mut lo: usize = 0;
    while lo < m && is_ct_space_char(cut.get_char(lo))
        invariant
            0 <= lo <= m,
            m == cut@.len(),
            forall|k: int| 0 <= k < lo ==> is_ct_space(cut@[k]),
        decreases m - lo,
    {
        lo += 1;
    }
    proof {
        lemma_lead_ws_unique(cut@, lo as int);
    }
    let mut hi: usize = m;
    while hi > 0 && is_ct_space_char(cut.get_char(hi - 1))
        invariant
            0 <= hi <= m,
            m == cut@.len(),
            forall|k: int| hi <= k < m ==> is_ct_space(cut@[k]),
        decreases hi,
    {
        hi -= 1;
    }
    proof {
        lemma_trail_ws_end_unique(cut@, hi as int);
    }
    if lo <= hi {
        String::from_str(cut.substring_char(lo, hi))
    } else {
        String::new()
    }
}

/// Whether a table entry matches a declared content type: their essences
/// are equal.
pub open spec fn ct_matches(entry: Seq<char>, declared: Seq<char>) -> bool {
    spec_essence(entry) == spec_essence(declared)
}

/// The position of the first table entry that matches, if any.
pub open spec fn first_match(table: Seq<Seq<char>>, declared: Seq<char>) -> Option<int>
    decreases table.len(),
{
    if table.len() == 0 {
        Option::None
    } else if ct_matches(table[0], declared) {
        Option::Some(0int)
    } else {
        match first_match(table.drop_first(), declared) {
            Option::Some(i) => Option::Some(i + 1),
            Option::None => Option::None,
        }
    }
}

proof fn lemma_first_match_unique(table: Seq<Seq<char>>, declared: Seq<char>, j: int)
    requires
        0 <= j <= table.len(),
        forall|k: int| 0 <= k < j ==> !ct_matches(#[trigger] table[k], declared),
        j < table.len() ==> ct_matches(table[j], declared),
    ensures
        j < table.len() ==> first_match(table, declared) == Option::Some(j),
        j == table.len() ==> first_match(table, declared) is None,
    decreases table.len(),
{
    if table.len() == 0 {
    } else if ct_matches(table[0], declared) {
        assert(j == 0);
    } else {
        assert(j >= 1);
        let t = table.drop_first();
        assert(forall|k: int| 0 <= k < t.len() ==> #[trigger] t[k] == table[k + 1]);
        lemma_first_match_unique(t, declared, j - 1);
    }
}

/// What a match position means: the entry there matches, and no earlier
/// entry does.
pub proof fn lemma_first_match_props(table: Seq<Seq<char>>, declared: Seq<char>)
    ensures
        (first_match(table, declared) matches Some(i) ==> 0 <= i < table.len() && ct_matches(
            table[i],
            declared,
        ) && (forall|k: int| 0 <= k < i ==> !ct_matches(#[trigger] table[k], declared))),
        (first_match(table, declared) is None ==> forall|k: int|
            0 <= k < table.len() ==> !ct_matches(#[trigger] table[k], declared)),
    decreases table.len(),
{
    if table.len() == 0 {
    } else if ct_matches(table[0], declared) {
    } else {
        let t = table.drop_first();
        assert(forall|k: int| 0 <= k < t.len() ==> #[trigger] t[k] == table[k + 1]);
        lemma_first_match_props(t, declared);
        match first_match(t, declared) {
            Option::Some(i) => {
                assert(first_match(table, declared) == Option::Some(i + 1));
                assert forall|k: int| 0 <= k < i + 1 implies !ct_matches(
                    #[trigger] table[k],
                    declared,
                ) by {
                    if k > 0 {
                        assert(t[k - 1] == table[k]);
                    }
                }
            },
            Option::None => {
                assert forall|k: int| 0 <= k < table.len() implies !ct_matches(
                    #[trigger] table[k],
                    declared,
                ) by {
                    if k > 0 {
                        assert(t[k - 1] == table[k]);
                    }
                }
            },
        }
    }
}

/// Declaration order is the tie-break: when two table entries both could
/// match the declared content type, the dispatch position is never the
/// later one; it is at or before the earlier of the two, and its entry
/// matches.
pub proof fn lemma_declaration_order_tie_break(
    table: Seq<Seq<char>>,
    declared: Seq<char>,
    i: int,
    j: int,
)
    requires
        0 <= i < j < table.len(),
        ct_matches(table[i], declared),
        ct_matches(table[j], declared),
    ensures
        first_match(table, declared) matches Some(k) && 0 <= k <= i && ct_matches(
            table[k],
            declared,
        ),
{
    lemma_first_match_props(table, declared);
}

/// The outcome of the emitted decoder's decision on one request.
pub enum DecodeOutcome {
    /// The request declared no content type; decoding fails at once.
    ExpectContentType,
    /// The declared content type, carried verbatim, matched no table entry.
    NotSupported(String),
    /// The declared content type first matched the table entry at this
    /// position; the decoder invokes that variant's payload decoder.
    Dispatch(usize),
}

impl DecodeOutcome {
    /// The error text of a failing outcome, as the emitted code reports it.
    pub fn error_text(&self) -> (r: Option<String>)
        ensures
            (*self is ExpectContentType ==> (r matches Some(t) && t@
                == "expected content type"@)),
            (*self matches DecodeOutcome::NotSupported(ct) ==> (r matches Some(t) && t@
                == "content type not supported: "@ + ct@)),
            (*self is Dispatch ==> r is None),
    {
        match self {
            DecodeOutcome::ExpectContentType => Some(String::from_str("expected content type")),
            DecodeOutcome::NotSupported(ct) => {
                let mut out = String::from_str("content type not supported: ");
                out.append(ct.as_str());
                Some(out)
            },
            DecodeOutcome::Dispatch(_) => None,
        }
    }
}

/// The decision the emitted decoder makes, from the ordered content-type
/// table and the request's declared content type alone: an absent content
/// type fails at once, whatever the body holds; a present one dispatches to
/// the first matching entry, or fails carrying the declared value when no
/// entry matches.
#[verifier::loop_isolation(false)]
pub fn decode_decision(table: &Vec<String>, declared: &Option<String>) -> (r: DecodeOutcome)
    ensures
        (declared is None <==> r is ExpectContentType),
        (declared matches Some(ct) ==> (match first_match(seq_views(table@), ct@) {
            Option::Some(i) => r matches DecodeOutcome::Dispatch(j) && j == i,
            Option::None => r matches DecodeOutcome::NotSupported(t) && t@ == ct@,
        })),
{
    let ct = match declared {
        Option::Some(ct) => ct,
        Option::None => {
            return DecodeOutcome::ExpectContentType;
        },
    };
    let declared_essence = essence_of(ct.as_str());
    let ghost tviews = seq_views(table@);
    let mut j: usize = 0;
    while j < table.len()
        invariant
            0 <= j <= table@.len(),
            tviews == seq_views(table@),
            declared_essence@ == spec_essence(ct@),
            forall|k: int| 0 <= k < j ==> !ct_matches(#[trigger] tviews[k], ct@),
        decreases table@.len() - j,
    {
        let entry_essence = essence_of(table[j].as_str());
        if entry_essence == declared_essence {
            proof {
                lemma_first_match_unique(tviews, ct@, j as int);
            }
            return DecodeOutcome::Dispatch(j);
        }
        j += 1;
    }
    proof {
        lemma_first_match_unique(tviews, ct@, j as int);
    }
    DecodeOutcome::NotSupported(ct.clone())
}

} // verus!

