//! Target filtering: `target=level` rules with module-boundary-aware
//! prefix matching.
use vstd::prelude::*;

use crate::Level;
use crate::LevelFilter;
use crate::level_verbosity;
use crate::filter_verbosity;

verus! {

// ---------------------------------------------------------------------------
// Case-insensitive comparison of ASCII letters
// ---------------------------------------------------------------------------

/// Two characters are equal up to ASCII case: either identical, or the same
/// letter with one side upper-case (code 65..=90) and the other 32 above it.
pub open spec fn chars_eq_nocase(a: char, b: char) -> bool {
    a == b
    || (65 <= a as int <= 90 && b as int == a as int + 32)
    || (65 <= b as int <= 90 && a as int == b as int + 32)
}

/// Character sequences equal up to ASCII case.
pub open spec fn seq_eq_nocase(a: Seq<char>, b: Seq<char>) -> bool {
    a.len() == b.len() && forall|i: int| 0 <= i < a.len() ==> chars_eq_nocase(a[i], b[i])
}

/// Parse a level token; unrecognized tokens mean `Off`.
/// Recognition is case-insensitive.
pub open spec fn spec_parse_level(s: Seq<char>) -> LevelFilter {
    if seq_eq_nocase(s, "trace"@) {
        LevelFilter::Trace
    } else if seq_eq_nocase(s, "debug"@) {
        LevelFilter::Debug
    } else if seq_eq_nocase(s, "info"@) {
        LevelFilter::Info
    } else if seq_eq_nocase(s, "warn"@) {
        LevelFilter::Warn
    } else if seq_eq_nocase(s, "error"@) {
        LevelFilter::Error
    } else {
        LevelFilter::Off
    }
}

/// Compare two strings for equality up to ASCII case.
fn eq_nocase(a: &str, b: &str) -> (r: bool)
    ensures
        r == seq_eq_nocase(a@, b@),
{
    let alen = a.unicode_len();
    let blen = b.unicode_len();
    if alen != blen {
        return false;
    }
    for i in 0..alen
        invariant
            alen == a@.len(),
            alen == b@.len(),
            forall|j: int| 0 <= j < i ==> chars_eq_nocase(a@[j], b@[j]),
    {
        let ca = a.get_char(i);
        let cb = b.get_char(i);
        let na = ca as u32;
        let nb = cb as u32;
        let same = na == nb
            || (65 <= na && na <= 90 && nb == na + 32)
            || (65 <= nb && nb <= 90 && na == nb + 32);
        if !same {
            assert(!chars_eq_nocase(a@[i as int], b@[i as int]));
            return false;
        }
    }
    true
}

/// Parse a level token from a rule's right-hand side.
pub fn parse_level(s: &str) -> (r: LevelFilter)
    ensures
        r == spec_parse_level(s@),
{
    if eq_nocase(s, "trace") {
        LevelFilter::Trace
    } else if eq_nocase(s, "debug") {
        LevelFilter::Debug
    } else if eq_nocase(s, "info") {
        LevelFilter::Info
    } else if eq_nocase(s, "warn") {
        LevelFilter::Warn
    } else if eq_nocase(s, "error") {
        LevelFilter::Error
    } else {
        LevelFilter::Off
    }
}

// ---------------------------------------------------------------------------
// Searching for a character
// ---------------------------------------------------------------------------

/// Position of the first occurrence of `c` in `s`, if any.
fn find_char(s: &str, c: char) -> (r: Option<usize>)
    ensures
        match r {
            Some(i) => s@.index_of_first(c) == Some(i as int),
            None => s@.index_of_first(c) is None,
        },
{
    let len = s.unicode_len();
    proof {
        s@.index_of_first_ensures(c);
    }
    for i in 0..len
        invariant
            len == s@.len(),
            forall|j: int| 0 <= j < i ==> s@[j] != c,
            match s@.index_of_first(c) {
                Some(idx) => 0 <= idx < s@.len() && s@[idx] == c && forall|j: int|
                    0 <= j < idx ==> s@[j] != c,
                None => forall|j: int| 0 <= j < s@.len() ==> s@[j] != c,
            },
    {
        if s.get_char(i) == c {
            return Some(i);
        }
    }
    None
}

// ---------------------------------------------------------------------------
// Matching semantics
// ---------------------------------------------------------------------------

/// A rule key `k` matches a target `t` when the two are equal, or `k` is a
/// literal prefix of `t` that ends at a module boundary: the target goes on
/// with `"::"`. This keeps `"tokio"` from matching `"tokioX"` or
/// `"tokio_util::io"` (a different module family) while still matching the
/// exact target `"tokio"` and genuine sub-namespaces such as
/// `"tokio::io::Read"` for the key `"tokio::io"`.
pub open spec fn rule_matches(k: Seq<char>, t: Seq<char>) -> bool {
    k == t || (k.len() + 2 <= t.len() && t.subrange(0, k.len() as int) == k && t[k.len() as int]
        == ':' && t[k.len() as int + 1] == ':')
}

/// A record at `level` for `target` is suppressed by the table `m` when some
/// rule key matches the target and the record is at least as verbose as that
/// rule's threshold.
pub open spec fn spec_suppressed(
    m: Map<Seq<char>, LevelFilter>,
    target: Seq<char>,
    level: Level,
) -> bool {
    exists|k: Seq<char>|
        m.dom().contains(k) && rule_matches(k, target) && level_verbosity(level)
            >= filter_verbosity(m[k])
}

/// Whether `t` starts with `k`, character for character.
fn starts_with(t: &str, k: &str) -> (r: bool)
    ensures
        r == (k@.len() <= t@.len() && t@.subrange(0, k@.len() as int) == k@),
{
    let klen = k.unicode_len();
    let tlen = t.unicode_len();
    if klen > tlen {
        return false;
    }
    for i in 0..klen
        invariant
            klen == k@.len(),
            tlen == t@.len(),
            klen <= tlen,
            forall|j: int| 0 <= j < i ==> t@[j] == k@[j],
    {
        if t.get_char(i) != k.get_char(i) {
            assert(t@.subrange(0, k@.len() as int)[i as int] != k@[i as int]);
            return false;
        }
    }
    assert(t@.subrange(0, k@.len() as int) =~= k@);
    true
}

/// Whether the rule key `k` matches the target `t`: equal, or a prefix of
/// `t` that ends at a `"::"` module boundary.
fn matches_rule(t: &str, k: &str) -> (r: bool)
    ensures
        r == rule_matches(k@, t@),
{
    if str_eq(t, k) {
        return true;
    }
    let klen = k.unicode_len();
    let tlen = t.unicode_len();
    if klen > tlen || tlen - klen < 2 {
        return false;
    }
    if !starts_with(t, k) {
        return false;
    }
    t.get_char(klen) == ':' && t.get_char(klen + 1) == ':'
}

/// Whether two strings hold the same characters.
fn str_eq(a: &str, b: &str) -> (r: bool)
    ensures
        r == (a@ == b@),
{
    let alen = a.unicode_len();
    let blen = b.unicode_len();
    if alen != blen {
        assert(a@ != b@);
        return false;
    }
    for i in 0..alen
        invariant
            alen == a@.len(),
            alen == b@.len(),
            forall|j: int| 0 <= j < i ==> a@[j] == b@[j],
    {
        if a.get_char(i) != b.get_char(i) {
            return false;
        }
    }
    assert(a@ =~= b@);
    true
}

// ---------------------------------------------------------------------------
// Parsing rules
// ---------------------------------------------------------------------------

/// Parse one `key=level` rule segment. A segment with no `=` or with an
/// empty key yields nothing; the level is everything after the first `=`.
pub open spec fn spec_parse_rule(s: Seq<char>) -> Option<(Seq<char>, LevelFilter)> {
    match s.index_of_first('=') {
        Some(i) => if i == 0 {
            None
        } else {
            Some((s.subrange(0, i), spec_parse_level(s.subrange(i + 1, s.len() as int))))
        },
        None => None,
    }
}

/// The table built from a sequence of rule segments: malformed segments are
/// dropped, and a later segment with the same key replaces an earlier one.
pub open spec fn spec_parse_rules(rules: Seq<Seq<char>>) -> Map<Seq<char>, LevelFilter>
    decreases rules.len(),
{
    if rules.len() == 0 {
        Map::empty()
    } else {
        let m = spec_parse_rules(rules.drop_last());
        match spec_parse_rule(rules.last()) {
            Some(kv) => m.insert(kv.0, kv.1),
            None => m,
        }
    }
}

/// Split a sequence on a separator character; `n` separators yield `n + 1`
/// pieces, empty pieces included.
pub open spec fn spec_split(s: Seq<char>, c: char) -> Seq<Seq<char>>
    decreases s.len(),
    via spec_split_decreases
{
    match s.index_of_first(c) {
        Some(i) => seq![s.subrange(0, i)] + spec_split(s.subrange(i + 1, s.len() as int), c),
        None => seq![s],
    }
}

#[via_fn]
proof fn spec_split_decreases(s: Seq<char>, c: char) {
    s.index_of_first_ensures(c);
}

/// Parse one rule segment, returning the key and threshold to store.
fn parse_rule(s: &str) -> (r: Option<(String, LevelFilter)>)
    ensures
        match r {
            Some(kv) => spec_parse_rule(s@) == Some((kv.0@, kv.1)),
            None => spec_parse_rule(s@) is None,
        },
{
    let len = s.unicode_len();
    match find_char(s, '=') {
        None => None,
        Some(i) => {
            if i == 0 {
                None
            } else {
                proof {
                    s@.index_of_first_ensures('=');
                }
                let key = s.substring_char(0, i);
                let value = s.substring_char(i + 1, len);
                Some((key.to_owned(), parse_level(value)))
            }
        },
    }
}

// ---------------------------------------------------------------------------
// The filter table
// ---------------------------------------------------------------------------

/// No two stored entries share a key.
pub open spec fn wf_entries(s: Seq<(String, LevelFilter)>) -> bool {
    forall|i: int, j: int| 0 <= i < j < s.len() ==> (#[trigger] s[i]).0@ != (#[trigger] s[j]).0@
}

/// The mapping from keys to thresholds that a sequence of entries holds;
/// a later entry with the same key wins.
pub open spec fn entries_map(s: Seq<(String, LevelFilter)>) -> Map<Seq<char>, LevelFilter>
    decreases s.len(),
{
    if s.len() == 0 {
        Map::empty()
    } else {
        entries_map(s.drop_last()).insert(s.last().0@, s.last().1)
    }
}

proof fn lemma_entries_map_wf(s: Seq<(String, LevelFilter)>)
    requires
        wf_entries(s),
    ensures
        forall|i: int| 0 <= i < s.len() ==> entries_map(s).contains_pair(
            (#[trigger] s[i]).0@,
            s[i].1,
        ),
        forall|k: Seq<char>| entries_map(s).dom().contains(k) ==> exists|i: int|
            0 <= i < s.len() && (#[trigger] s[i]).0@ == k && s[i].1 == entries_map(s)[k],
    decreases s.len(),
{
    if s.len() > 0 {
        let d = s.drop_last();
        assert(wf_entries(d));
        lemma_entries_map_wf(d);
        assert forall|i: int| 0 <= i < s.len() implies entries_map(s).contains_pair(
            (#[trigger] s[i]).0@,
            s[i].1,
        ) by {
            if i < s.len() - 1 {
                assert(d[i] == s[i]);
                assert(s[i].0@ != s[s.len() - 1].0@);
            }
        }
        assert forall|k: Seq<char>| entries_map(s).dom().contains(k) implies exists|i: int|
            0 <= i < s.len() && (#[trigger] s[i]).0@ == k && s[i].1 == entries_map(s)[k] by {
            if k == s.last().0@ {
                assert(s[s.len() - 1].0@ == k && s[s.len() - 1].1 == entries_map(s)[k]);
            } else {
                assert(entries_map(d).dom().contains(k));
                let i = choose|i: int|
                    0 <= i < d.len() && (#[trigger] d[i]).0@ == k && d[i].1 == entries_map(d)[k];
                assert(s[i].0@ == k && s[i].1 == entries_map(s)[k]);
            }
        }
    }
}

proof fn lemma_entries_map_update(s: Seq<(String, LevelFilter)>, j: int, p: (String, LevelFilter))
    requires
        wf_entries(s),
        0 <= j < s.len(),
        s[j].0@ == p.0@,
    ensures
        entries_map(s.update(j, p)) == entries_map(s).insert(p.0@, p.1),
        wf_entries(s.update(j, p)),
    decreases s.len(),
{
    let t = s.update(j, p);
    assert(t.len() == s.len());
    if j == s.len() - 1 {
        assert(t.drop_last() =~= s.drop_last());
        assert(t.last() == p);
        assert(entries_map(t) =~= entries_map(s).insert(p.0@, p.1));
    } else {
        let d = s.drop_last();
        assert(wf_entries(d));
        assert(d[j] == s[j]);
        lemma_entries_map_update(d, j, p);
        assert(t.drop_last() =~= d.update(j, p));
        assert(t.last() == s.last());
        // the updated key differs from the last entry's key, so the two
        // insertions commute
        assert(s[j].0@ != s[s.len() - 1].0@);
        assert(entries_map(t) =~= entries_map(s).insert(p.0@, p.1));
    }
    assert forall|a: int, b: int| 0 <= a < b < t.len() implies (#[trigger] t[a]).0@
        != (#[trigger] t[b]).0@ by {
        assert(s[a].0@ != s[b].0@);
    }
}

/// Insert a parsed rule, replacing any entry that already holds the key.
fn insert_entry(entries: &mut Vec<(String, LevelFilter)>, key: String, value: LevelFilter)
    requires
        wf_entries(old(entries)@),
    ensures
        wf_entries(final(entries)@),
        entries_map(final(entries)@) == entries_map(old(entries)@).insert(key@, value),
{
    let n = entries.len();
    for i in 0..n
        invariant
            n == entries@.len(),
            entries@ == old(entries)@,
            wf_entries(entries@),
            forall|j: int| 0 <= j < i ==> (#[trigger] entries@[j]).0@ != key@,
    {
        if str_eq(entries[i].0.as_str(), key.as_str()) {
            let ghost s0 = entries@;
            entries.set(i, (key, value));
            proof {
                lemma_entries_map_update(s0, i as int, entries@[i as int]);
            }
            return;
        }
    }
    let ghost s0 = entries@;
    entries.push((key, value));
    proof {
        assert(entries@.drop_last() =~= s0);
        assert forall|a: int, b: int| 0 <= a < b < entries@.len() implies (#[trigger] entries@[
            a
        ]).0@ != (#[trigger] entries@[b]).0@ by {
            if b < entries@.len() - 1 {
                assert(s0[a].0@ != s0[b].0@);
            } else {
                assert(s0[a].0@ != key@);
            }
        }
    }
}

/// Parse one rule segment into the table; malformed segments change nothing.
fn add_rule(entries: &mut Vec<(String, LevelFilter)>, s: &str)
    requires
        wf_entries(old(entries)@),
    ensures
        wf_entries(final(entries)@),
        entries_map(final(entries)@) == (match spec_parse_rule(s@) {
            Some(kv) => entries_map(old(entries)@).insert(kv.0, kv.1),
            None => entries_map(old(entries)@),
        }),
{
    match parse_rule(s) {
        None => {},
        Some(kv) => insert_entry(entries, kv.0, kv.1),
    }
}

/// A target-filtering table: unique rule keys, each with a threshold.
pub struct Filtered {
    entries: Vec<(String, LevelFilter)>,
}

impl View for Filtered {
    type V = Map<Seq<char>, LevelFilter>;

    closed spec fn view(&self) -> Map<Seq<char>, LevelFilter> {
        entries_map(self.entries@)
    }
}

impl Filtered {
    #[verifier::type_invariant]
    spec fn wf(self) -> bool {
        wf_entries(self.entries@)
    }

    /// Build a table from `key=level` rule segments.
    pub fn new(targets: &[&str]) -> (r: Self)
        ensures
            r@ == spec_parse_rules(targets.deep_view()),
    {
        let mut entries: Vec<(String, LevelFilter)> = Vec::new();
        let n = targets.len();
        for idx in 0..n
            invariant
                n == targets@.len(),
                wf_entries(entries@),
                entries_map(entries@) == spec_parse_rules(targets.deep_view().take(idx as int)),
        {
            let t: &str = targets[idx];
            add_rule(&mut entries, t);
            proof {
                let dv = targets.deep_view();
                assert(dv.take(idx + 1).drop_last() =~= dv.take(idx as int));
                assert(dv.take(idx + 1).last() == dv[idx as int]);
                assert(dv[idx as int] == targets@[idx as int]@);
            }
        }
        proof {
            assert(targets.deep_view().take(n as int) =~= targets.deep_view());
        }
        Filtered { entries }
    }

    /// Build a table from a comma-separated rule list.
    pub fn from_str(string: &str) -> (r: Self)
        ensures
            r@ == spec_parse_rules(spec_split(string@, ',')),
    {
        let mut entries: Vec<(String, LevelFilter)> = Vec::new();
        let mut rest: String = string.to_owned();
        let ghost mut done: Seq<Seq<char>> = Seq::empty();
        loop
            invariant_except_break
                wf_entries(entries@),
                spec_split(string@, ',') == done + spec_split(rest@, ','),
                entries_map(entries@) == spec_parse_rules(done),
            ensures
                wf_entries(entries@),
                entries_map(entries@) == spec_parse_rules(spec_split(string@, ',')),
            decreases rest@.len(),
        {
            let len = rest.as_str().unicode_len();
            match find_char(rest.as_str(), ',') {
                Some(i) => {
                    proof {
                        rest@.index_of_first_ensures(',');
                    }
                    let seg = rest.as_str().substring_char(0, i);
                    add_rule(&mut entries, seg);
                    let tail = rest.as_str().substring_char(i + 1, len).to_owned();
                    proof {
                        assert(spec_split(rest@, ',') == seq![rest@.subrange(0, i as int)]
                            + spec_split(tail@, ','));
                        assert(done.push(seg@).drop_last() =~= done);
                        assert((done + spec_split(rest@, ',')) =~= (done.push(seg@) + spec_split(
                            tail@,
                            ',',
                        )));
                        done = done.push(seg@);
                    }
                    rest = tail;
                },
                None => {
                    add_rule(&mut entries, rest.as_str());
                    proof {
                        assert(spec_split(rest@, ',') =~= seq![rest@]);
                        assert(done.push(rest@).drop_last() =~= done);
                        assert((done + spec_split(rest@, ',')) =~= done.push(rest@));
                        assert(spec_split(string@, ',') == done.push(rest@));
                    }
                    break;
                },
            }
        }
        Filtered { entries }
    }

    /// The stored `(key, threshold)` pairs, in no promised order.
    pub fn filtered(&self) -> (r: Vec<(String, LevelFilter)>)
        ensures
            forall|i: int| 0 <= i < r@.len() ==> self@.contains_pair((#[trigger] r@[i]).0@, r@[i].1),
            forall|k: Seq<char>| self@.dom().contains(k) ==> exists|i: int|
                0 <= i < r@.len() && (#[trigger] r@[i]).0@ == k,
            wf_entries(r@),
    {
        proof {
            use_type_invariant(&*self);
            lemma_entries_map_wf(self.entries@);
        }
        let mut out: Vec<(String, LevelFilter)> = Vec::new();
        let n = self.entries.len();
        for i in 0..n
            invariant
                n == self.entries@.len(),
                out@.len() == i,
                forall|j: int| 0 <= j < i ==> out@[j] == self.entries@[j],
        {
            let k = self.entries[i].0.clone();
            let v = self.entries[i].1;
            out.push((k, v));
        }
        proof {
            use_type_invariant(&*self);
            lemma_entries_map_wf(self.entries@);
            assert forall|k: Seq<char>| self@.dom().contains(k) implies exists|i: int|
                0 <= i < out@.len() && (#[trigger] out@[i]).0@ == k by {
                let ii = choose|ii: int|
                    0 <= ii < self.entries@.len() && (#[trigger] self.entries@[ii]).0@ == k
                        && self.entries@[ii].1 == entries_map(self.entries@)[k];
                assert(out@[ii].0@ == k);
            }
        }
        out
    }

    /// Whether a record for `input` at `level` is suppressed by this table:
    /// true exactly when some rule matches the target and the record is at
    /// least as verbose as that rule's threshold.
    pub fn apply(&self, input: &str, level: Level) -> (r: bool)
        ensures
            r == spec_suppressed(self@, input@, level),
    {
        proof {
            use_type_invariant(&*self);
            lemma_entries_map_wf(self.entries@);
        }
        let lv = level.verbosity();
        let n = self.entries.len();
        for i in 0..n
            invariant
                n == self.entries@.len(),
                lv as int == level_verbosity(level),
                wf_entries(self.entries@),
                self@ == entries_map(self.entries@),
                forall|j: int| 0 <= j < i ==> !(rule_matches(
                    (#[trigger] self.entries@[j]).0@,
                    input@,
                ) && level_verbosity(level) >= filter_verbosity(self.entries@[j].1)),
                forall|ii: int| 0 <= ii < self.entries@.len() ==> entries_map(
                    self.entries@,
                ).contains_pair((#[trigger] self.entries@[ii]).0@, self.entries@[ii].1),
                forall|k: Seq<char>| entries_map(self.entries@).dom().contains(k) ==> exists|ii: int|
                    0 <= ii < self.entries@.len() && (#[trigger] self.entries@[ii]).0@ == k
                        && self.entries@[ii].1 == entries_map(self.entries@)[k],
        {
            let ent = &self.entries[i];
            let is_match = matches_rule(input, ent.0.as_str());
            if is_match && lv >= ent.1.verbosity() {
                assert(rule_matches(self.entries@[i as int].0@, input@));
                assert(self@.contains_pair(self.entries@[i as int].0@, self.entries@[i as int].1));
                return true;
            }
        }
        assert forall|k: Seq<char>| self@.dom().contains(k) implies !(rule_matches(k, input@)
            && level_verbosity(level) >= filter_verbosity(self@[k])) by {
            let ii = choose|ii: int|
                0 <= ii < self.entries@.len() && (#[trigger] self.entries@[ii]).0@ == k
                    && self.entries@[ii].1 == entries_map(self.entries@)[k];
            assert(!(rule_matches(self.entries@[ii].0@, input@) && level_verbosity(level)
                >= filter_verbosity(self.entries@[ii].1)));
        }
        false
    }
}

impl Default for Filtered {
    /// An empty table, which suppresses nothing.
    fn default() -> (r: Self)
        ensures
            r@ == Map::<Seq<char>, LevelFilter>::empty(),
    {
        Filtered { entries: Vec::new() }
    }
}

// ---------------------------------------------------------------------------
// Laws
// ---------------------------------------------------------------------------

/// A rule segment that holds no `=`, or whose key (the part before the first
/// `=`) is empty, contributes no entry: the table built with it is the table
/// built without it.
pub proof fn lemma_malformed_rule_dropped(rules: Seq<Seq<char>>, s: Seq<char>)
    requires
        (forall|i: int| 0 <= i < s.len() ==> s[i] != '=') || (s.len() > 0 && s[0] == '='),
    ensures
        spec_parse_rules(rules.push(s)) == spec_parse_rules(rules),
{
    s.index_of_first_ensures('=');
    assert(spec_parse_rule(s) is None);
    assert(rules.push(s).drop_last() =~= rules);
}

proof fn nocase_trans(a: Seq<char>, b: Seq<char>, t: Seq<char>)
    requires
        seq_eq_nocase(a, b),
        seq_eq_nocase(a, t),
    ensures
        seq_eq_nocase(b, t),
{
    assert forall|i: int| 0 <= i < b.len() implies chars_eq_nocase(b[i], t[i]) by {
        assert(chars_eq_nocase(a[i], b[i]));
        assert(chars_eq_nocase(a[i], t[i]));
    }
}

/// Level parsing is case-insensitive: two tokens equal up to ASCII case
/// parse to the same threshold.
pub proof fn lemma_parse_level_nocase(a: Seq<char>, b: Seq<char>)
    requires
        seq_eq_nocase(a, b),
    ensures
        spec_parse_level(a) == spec_parse_level(b),
{
    assert forall|i: int| 0 <= i < b.len() implies chars_eq_nocase(b[i], a[i]) by {
        assert(chars_eq_nocase(a[i], b[i]));
    }
    assert(seq_eq_nocase(b, a));
    if seq_eq_nocase(a, "trace"@) {
        nocase_trans(a, b, "trace"@);
    }
    if seq_eq_nocase(b, "trace"@) {
        nocase_trans(b, a, "trace"@);
    }
    if seq_eq_nocase(a, "debug"@) {
        nocase_trans(a, b, "debug"@);
    }
    if seq_eq_nocase(b, "debug"@) {
        nocase_trans(b, a, "debug"@);
    }
    if seq_eq_nocase(a, "info"@) {
        nocase_trans(a, b, "info"@);
    }
    if seq_eq_nocase(b, "info"@) {
        nocase_trans(b, a, "info"@);
    }
    if seq_eq_nocase(a, "warn"@) {
        nocase_trans(a, b, "warn"@);
    }
    if seq_eq_nocase(b, "warn"@) {
        nocase_trans(b, a, "warn"@);
    }
    if seq_eq_nocase(a, "error"@) {
        nocase_trans(a, b, "error"@);
    }
    if seq_eq_nocase(b, "error"@) {
        nocase_trans(b, a, "error"@);
    }
}

} // verus!
