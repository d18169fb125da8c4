//! Scanning the Qobuz web player's pages and bundles for the app id and
//! the app secret, and the decisions of the fetch that drives it.

use vstd::prelude::*;
use crate::error::Error;
use crate::wrappers::{base64_url_safe_decode, base64_url_safe_decoded, push_char, utf8_string};
use vstd::utf8::{decode_utf8, encode_utf8, valid_utf8};
use crate::text::{
    chars_of, contains, find, find_from, is_alpha, is_alpha_exec, is_digit, is_digit_exec, occurs_at,
    occurs_at_exec, string_of, to_lower, to_lower_exec, to_upper, to_upper_exec,
    utf8_len, utf8_width, utf8_width_exec, lemma_find_from,
};

verus! {

/// A map from strings to strings, kept as its entries in order of first
/// insertion.
#[derive(Debug)]
pub struct StringMap {
    entries: Vec<(String, String)>,
}

/// The map that a list of entries describes (a later entry of a key wins).
pub open spec fn entries_map(e: Seq<(String, String)>) -> Map<Seq<char>, Seq<char>>
    decreases e.len(),
{
    if e.len() == 0 {
        Map::empty()
    } else {
        entries_map(e.drop_last()).insert(e.last().0@, e.last().1@)
    }
}

/// Whether no key occurs twice among the entries.
pub open spec fn keys_distinct(e: Seq<(String, String)>) -> bool {
    forall|i: int, j: int| 0 <= i < j < e.len() ==> e[i].0@ != e[j].0@
}

proof fn lemma_entries_map_last(e: Seq<(String, String)>, k: Seq<char>, i: int)
    requires
        0 <= i < e.len(),
        e[i].0@ == k,
        forall|j: int| i < j < e.len() ==> e[j].0@ != k,
    ensures
        entries_map(e).contains_key(k),
        entries_map(e)[k] == e[i].1@,
    decreases e.len(),
{
    if i < e.len() - 1 {
        lemma_entries_map_last(e.drop_last(), k, i);
    }
}

proof fn lemma_entries_map_absent(e: Seq<(String, String)>, k: Seq<char>)
    requires
        forall|j: int| 0 <= j < e.len() ==> e[j].0@ != k,
    ensures
        !entries_map(e).contains_key(k),
    decreases e.len(),
{
    if e.len() > 0 {
        lemma_entries_map_absent(e.drop_last(), k);
    }
}

proof fn lemma_entries_map_keys(e: Seq<(String, String)>, k: Seq<char>)
    ensures
        entries_map(e).contains_key(k) <==> exists|j: int| 0 <= j < e.len() && #[trigger] e[j].0@ == k,
    decreases e.len(),
{
    if e.len() > 0 {
        lemma_entries_map_keys(e.drop_last(), k);
        if entries_map(e.drop_last()).contains_key(k) {
            let j = choose|j: int| 0 <= j < e.drop_last().len() && #[trigger] e.drop_last()[j].0@ == k;
            assert(e[j].0@ == k);
        }
        if exists|j: int| 0 <= j < e.len() && #[trigger] e[j].0@ == k {
            let j = choose|j: int| 0 <= j < e.len() && #[trigger] e[j].0@ == k;
            if j < e.len() - 1 {
                assert(e.drop_last()[j].0@ == k);
            }
        }
    }
}

proof fn lemma_entries_map_update(e: Seq<(String, String)>, i: int, x: (String, String))
    requires
        0 <= i < e.len(),
        keys_distinct(e),
        e[i].0@ == x.0@,
    ensures
        entries_map(e.update(i, x)) == entries_map(e).insert(x.0@, x.1@),
    decreases e.len(),
{
    let e2 = e.update(i, x);
    if i == e.len() - 1 {
        assert(e2.drop_last() =~= e.drop_last());
        assert(entries_map(e2) =~= entries_map(e).insert(x.0@, x.1@));
    } else {
        assert(e2.drop_last() =~= e.drop_last().update(i, x));
        lemma_entries_map_update(e.drop_last(), i, x);
        assert(e.last().0@ != x.0@);
        assert(entries_map(e2) =~= entries_map(e).insert(x.0@, x.1@));
    }
}

impl View for StringMap {
    type V = Map<Seq<char>, Seq<char>>;

    /// The map held.
    closed spec fn view(&self) -> Map<Seq<char>, Seq<char>> {
        entries_map(self.entries@)
    }
}

impl StringMap {
    #[verifier::type_invariant]
    closed spec fn wf(self) -> bool {
        keys_distinct(self.entries@)
    }

    /// The empty map.
    pub fn new() -> (m: StringMap)
        ensures
            m.view() == Map::<Seq<char>, Seq<char>>::empty(),
    {
        StringMap { entries: Vec::new() }
    }

    fn index_of(&self, key: &String) -> (r: Option<usize>)
        ensures
            match r {
                Some(i) => i < self.entries@.len() && self.entries@[i as int].0@ == key@,
                None => forall|j: int| 0 <= j < self.entries@.len() ==> self.entries@[j].0@ != key@,
            },
    {
        let mut i: usize = 0;
        while i < self.entries.len()
            invariant
                i <= self.entries@.len(),
                forall|j: int| 0 <= j < i ==> self.entries@[j].0@ != key@,
            decreases self.entries@.len() - i,
        {
            if self.entries[i].0 == *key {
                return Some(i);
            }
            i += 1;
        }
        None
    }

    /// Maps `key` to `value`, replacing what it mapped to before.
    pub fn insert(&mut self, key: String, value: String)
        ensures
            final(self).view() == old(self).view().insert(key@, value@),
    {
        proof { use_type_invariant(&*self); }
        let found = self.index_of(&key);
        let ghost e = self.entries@;
        let mut entries: Vec<(String, String)> = Vec::new();
        std::mem::swap(&mut entries, &mut self.entries);
        match found {
            Some(i) => {
                let ghost x = (key, value);
                proof { lemma_entries_map_update(e, i as int, x); }
                entries.set(i, (key, value));
                assert(entries@ == e.update(i as int, x));
                assert(keys_distinct(entries@));
            },
            None => {
                entries.push((key, value));
                assert(entries@.drop_last() =~= e);
                assert(keys_distinct(entries@));
            },
        }
        self.entries = entries;
    }

    /// What `key` maps to.
    pub fn get(&self, key: &str) -> (v: Option<String>)
        ensures
            match v {
                Some(s) => self.view().contains_key(key@) && s@ == self.view()[key@],
                None => !self.view().contains_key(key@),
            },
    {
        proof { use_type_invariant(self); }
        let key_s = key.to_owned();
        match self.index_of(&key_s) {
            Some(i) => {
                proof { lemma_entries_map_last(self.entries@, key@, i as int); }
                Some(self.entries[i].1.clone())
            },
            None => {
                proof { lemma_entries_map_absent(self.entries@, key@); }
                None
            },
        }
    }

    /// Number of keys.
    pub fn len(&self) -> (n: usize)
        ensures
            n == self.view().dom().len(),
    {
        proof {
            use_type_invariant(self);
            lemma_entries_map_len(self.entries@);
        }
        self.entries.len()
    }

    /// Whether the map is empty.
    pub fn is_empty(&self) -> (b: bool)
        ensures
            b == (self.view().dom().len() == 0),
    {
        proof {
            use_type_invariant(self);
            lemma_entries_map_len(self.entries@);
        }
        self.entries.len() == 0
    }

    /// A value the map holds (the one of the key inserted first), if it
    /// holds any.
    pub fn any_value(&self) -> (v: Option<String>)
        ensures
            match v {
                Some(s) => self.view().dom().len() > 0
                    && exists|k: Seq<char>| #[trigger] self.view().contains_key(k) && self.view()[k] == s@,
                None => self.view().dom().len() == 0,
            },
    {
        proof {
            use_type_invariant(self);
            lemma_entries_map_len(self.entries@);
        }
        if self.entries.len() == 0 {
            None
        } else {
            let k = &self.entries[0].0;
            proof {
                lemma_entries_map_last(self.entries@, k@, 0);
                assert(self.view().contains_key(k@));
            }
            Some(self.entries[0].1.clone())
        }
    }

    /// The entries, in order of first insertion; no key occurs twice.
    pub fn entries(&self) -> (e: &Vec<(String, String)>)
        ensures
            entries_map(e@) == self.view(),
            keys_distinct(e@),
    {
        proof { use_type_invariant(self); }
        &self.entries
    }
}

proof fn lemma_entries_map_len(e: Seq<(String, String)>)
    requires
        keys_distinct(e),
    ensures
        entries_map(e).dom().finite(),
        entries_map(e).dom().len() == e.len(),
    decreases e.len(),
{
    if e.len() > 0 {
        lemma_entries_map_len(e.drop_last());
        lemma_entries_map_absent(e.drop_last(), e.last().0@);
    }
}


// ---------------------------------------------------------------------------
// Quoted values, app id, URLs
// ---------------------------------------------------------------------------

/// The first position at or after `i` that holds no space.
pub open spec fn skip_spaces(s: Seq<char>, i: int) -> int
    decreases s.len() - i,
{
    if 0 <= i < s.len() && s[i] == ' ' { skip_spaces(s, i + 1) } else { i }
}

/// The value quoted after `key` in `text`: `key`, optional spaces, then a
/// single or double quote and the text up to the same quote. `None` where
/// `key` is absent, no quote follows, or it is not closed.
pub open spec fn quoted_value(text: Seq<char>, key: Seq<char>) -> Option<Seq<char>> {
    match find_from(text, key, 0) {
        None => None,
        Some(k) => {
            let start = skip_spaces(text, k + key.len());
            if start >= text.len() {
                None
            } else {
                let q = text[start];
                if q != '"' && q != '\'' {
                    None
                } else {
                    match find_from(text, seq![q], start + 1) {
                        None => None,
                        Some(e) => Some(text.subrange(start + 1, e)),
                    }
                }
            }
        },
    }
}

proof fn lemma_skip_spaces(s: Seq<char>, i: int)
    requires
        0 <= i,
    ensures
        i <= skip_spaces(s, i),
        skip_spaces(s, i) <= s.len() || skip_spaces(s, i) == i,
    decreases s.len() - i,
{
    if 0 <= i < s.len() && s[i] == ' ' {
        lemma_skip_spaces(s, i + 1);
    }
}

fn quoted_in(text: &[char], key: &[char]) -> (r: Option<String>)
    ensures
        match quoted_value(text@, key@) {
            Some(v) => r matches Some(s) && s@ == v,
            None => r is None,
        },
{
    let tlen = text.len();
    let k = match find(text, key, 0) {
        Some(k) => k,
        None => return None,
    };
    proof { crate::text::lemma_find_from(text@, key@, 0); }
    let mut start = k + key.len();
    while start < text.len() && text[start] == ' '
        invariant
            k + key@.len() <= start <= text@.len() || start == k + key@.len(),
            skip_spaces(text@, start as int) == skip_spaces(text@, k + key@.len()),
        decreases text@.len() - start,
    {
        start += 1;
    }
    if start >= text.len() {
        return None;
    }
    let q = text[start];
    if q != '"' && q != '\'' {
        return None;
    }
    let mut qv: Vec<char> = Vec::new();
    qv.push(q);
    assert(qv@ =~= seq![q]);
    match find(text, qv.as_slice(), start + 1) {
        None => None,
        Some(e) => {
            proof { crate::text::lemma_find_from(text@, seq![q], start + 1); }
            Some(string_of(text, start + 1, e))
        },
    }
}

/// Extracts a quoted value after a key like `info:"value"` or `info: 'value'`.
pub fn extract_quoted_value(text: &str, key: &str) -> (r: Option<String>)
    ensures
        match quoted_value(text@, key@) {
            Some(v) => r matches Some(s) && s@ == v,
            None => r is None,
        },
{
    let t = chars_of(text);
    let k = chars_of(key);
    quoted_in(t.as_slice(), k.as_slice())
}

/// The text that precedes the app id in a bundle.
pub open spec fn app_id_needle() -> Seq<char> {
    "production:{api:{appId:\""@
}

/// The app id in a bundle: the nine characters after the first occurrence
/// of the needle, where all nine are ASCII digits.
pub open spec fn spec_app_id(b: Seq<char>) -> Option<Seq<char>> {
    match find_from(b, app_id_needle(), 0) {
        None => None,
        Some(p) => {
            let st = p + app_id_needle().len();
            if st + 9 <= b.len() && (forall|i: int| st <= i < st + 9 ==> is_digit(#[trigger] b[i])) {
                Some(b.subrange(st, st + 9))
            } else {
                None
            }
        },
    }
}

/// Law: every character from `0` to `9` counts as a digit of the app id.
/// Where the needle first occurs at `p`, the app id is the nine characters
/// after it exactly when each of them lies in `'0'..='9'`; where one of them
/// lies outside that range, or fewer than nine follow, there is none.
pub proof fn lemma_app_id_is_nine_decimal_digits(b: Seq<char>, p: int)
    requires
        occurs_at(b, app_id_needle(), p),
        forall|q: int| 0 <= q < p ==> !occurs_at(b, app_id_needle(), q),
    ensures
        ({
            let st = p + app_id_needle().len();
            &&& (st + 9 <= b.len() && forall|i: int| st <= i < st + 9 ==> '0' <= #[trigger] b[i] <= '9')
                ==> spec_app_id(b) == Some(b.subrange(st, st + 9))
            &&& (st + 9 > b.len() || exists|i: int| st <= i < st + 9 && !('0' <= #[trigger] b[i] <= '9'))
                ==> spec_app_id(b) is None
        }),
{
    lemma_find_from(b, app_id_needle(), 0);
    match find_from(b, app_id_needle(), 0) {
        Some(q) => {
            if q < p {
                assert(!occurs_at(b, app_id_needle(), q));
            }
            assert(q == p);
        },
        None => {
            assert(!occurs_at(b, app_id_needle(), p));
        },
    }
}

fn app_id_in(b: &[char]) -> (r: Option<String>)
    ensures
        match spec_app_id(b@) {
            Some(v) => r matches Some(s) && s@ == v,
            None => r is None,
        },
{
    let blen = b.len();
    let needle = chars_of("production:{api:{appId:\"");
    let p = match find(b, needle.as_slice(), 0) {
        Some(p) => p,
        None => return None,
    };
    proof { crate::text::lemma_find_from(b@, app_id_needle(), 0); }
    let st = p + needle.len();
    let mut n: usize = 0;
    while n < 9 && st + n < b.len() && is_digit_exec(b[st + n])
        invariant
            st <= b@.len(),
            blen == b@.len(),
            n <= 9,
            st + n <= b@.len(),
            forall|i: int| st <= i < st + n ==> is_digit(#[trigger] b@[i]),
        decreases 9 - n,
    {
        n += 1;
    }
    if n == 9 {
        Some(string_of(b, st, st + 9))
    } else {
        proof {
            if st + 9 <= b@.len() {
                assert(!is_digit(b@[st + n]));
            }
        }
        None
    }
}

/// Scans a bundle for the app id: `production:{api:{appId:"XXXXXXXXX"`.
pub fn scan_app_id(bundle: &str) -> (r: Option<String>)
    ensures
        match spec_app_id(bundle@) {
            Some(v) => r matches Some(s) && s@ == v,
            None => r is None,
        },
{
    let b = chars_of(bundle);
    app_id_in(b.as_slice())
}

/// Whether `u` starts with `p`.
pub open spec fn starts_with(u: Seq<char>, p: Seq<char>) -> bool {
    occurs_at(u, p, 0)
}

/// The absolute form of a script URL: kept where it has a scheme, else
/// made relative to the web player's origin.
pub open spec fn absolutized(u: Seq<char>) -> Seq<char> {
    if starts_with(u, "http://"@) || starts_with(u, "https://"@) {
        u
    } else if u.len() > 0 && u[0] == '/' {
        "https://play.qobuz.com"@ + u
    } else {
        "https://play.qobuz.com/"@ + u
    }
}

fn absolutize_chars(u: &[char]) -> (s: String)
    ensures
        s@ == absolutized(u@),
{
    let http = chars_of("http://");
    let https = chars_of("https://");
    if occurs_at_exec(u, http.as_slice(), 0) || occurs_at_exec(u, https.as_slice(), 0) {
        string_of(u, 0, u.len())
    } else if u.len() > 0 && u[0] == '/' {
        let mut s = "https://play.qobuz.com".to_owned();
        let rest = string_of(u, 0, u.len());
        s.append(rest.as_str());
        s
    } else {
        let mut s = "https://play.qobuz.com/".to_owned();
        let rest = string_of(u, 0, u.len());
        s.append(rest.as_str());
        s
    }
}

/// Makes a relative URL absolute.
pub fn absolutize(url: &str) -> (s: String)
    ensures
        s@ == absolutized(url@),
{
    let u = chars_of(url);
    absolutize_chars(u.as_slice())
}


// ---------------------------------------------------------------------------
// Seeds
// ---------------------------------------------------------------------------

/// The text before a seed.
pub open spec fn seed_needle() -> Seq<char> {
    ".initialSeed(\""@
}

/// The text between a seed and its timezone.
pub open spec fn tz_needle() -> Seq<char> {
    ",window.utimezone."@
}

/// The end of the run of ASCII letters that starts at `i`.
pub open spec fn alpha_run_end(s: Seq<char>, i: int) -> int
    decreases s.len() - i,
{
    if 0 <= i < s.len() && is_alpha(s[i]) { alpha_run_end(s, i + 1) } else { i }
}

proof fn lemma_alpha_run_end(s: Seq<char>, i: int)
    requires
        0 <= i <= s.len(),
    ensures
        i <= alpha_run_end(s, i) <= s.len(),
        forall|j: int| i <= j < alpha_run_end(s, i) ==> is_alpha(#[trigger] s[j]),
    decreases s.len() - i,
{
    if 0 <= i < s.len() && is_alpha(s[i]) {
        lemma_alpha_run_end(s, i + 1);
    }
}

/// A timezone name in lower case with its first letter in upper case.
pub open spec fn capitalized(tz: Seq<char>) -> Seq<char> {
    Seq::new(tz.len(), |i: int| if i == 0 { to_upper(to_lower(tz[0])) } else { to_lower(tz[i]) })
}

/// The (timezone, seed) pairs found from position `pos` on, in order:
/// each `.initialSeed("SEED"` whose closing quote is followed, somewhere
/// later, by `,window.utimezone.` and a run of letters; pairs where the seed
/// or the timezone is empty are skipped. The search goes on after the
/// timezone, or after the seed where no timezone follows it.
pub open spec fn seed_entries(b: Seq<char>, pos: int) -> Seq<(Seq<char>, Seq<char>)>
    decreases b.len() - pos,
{
    if pos < 0 {
        seq![]
    } else {
        match find_from(b, seed_needle(), pos) {
            None => seq![],
            Some(f) => {
                let start = f + seed_needle().len();
                match find_from(b, seq!['"'], start) {
                    None => seq![],
                    Some(qe) => {
                        let seed = b.subrange(start, qe);
                        proof {
                            lemma_find_from(b, seed_needle(), pos);
                            lemma_find_from(b, seq!['"'], start);
                        }
                        match find_from(b, tz_needle(), qe) {
                            None => if qe > pos { seed_entries(b, qe) } else { seq![] },
                            Some(tzp) => {
                                proof { lemma_find_from(b, tz_needle(), qe); }
                                let tz_start = tzp + tz_needle().len();
                                let tz = b.subrange(tz_start, alpha_run_end(b, tz_start));
                                let rest = if tz_start > pos { seed_entries(b, tz_start) } else { seq![] };
                                if tz.len() > 0 && seed.len() > 0 {
                                    seq![(capitalized(tz), seed)] + rest
                                } else {
                                    rest
                                }
                            },
                        }
                    },
                }
            },
        }
    }
}

/// The map after inserting the pairs in order.
pub open spec fn insert_all(m: Map<Seq<char>, Seq<char>>, e: Seq<(Seq<char>, Seq<char>)>) -> Map<Seq<char>, Seq<char>>
    decreases e.len(),
{
    if e.len() == 0 {
        m
    } else {
        insert_all(m.insert(e[0].0, e[0].1), e.drop_first())
    }
}

/// The timezone name, capitalized, of the letters `b[start..end]`.
fn capitalize_range(b: &[char], start: usize, end: usize) -> (s: String)
    requires
        start <= end <= b@.len(),
    ensures
        s@ == capitalized(b@.subrange(start as int, end as int)),
{
    let mut s = String::new();
    let mut i = start;
    let ghost tz = b@.subrange(start as int, end as int);
    while i < end
        invariant
            start <= i <= end <= b@.len(),
            tz == b@.subrange(start as int, end as int),
            s@ == capitalized(tz).take(i - start),
        decreases end - i,
    {
        let c = to_lower_exec(b[i]);
        let c2 = if i == start { to_upper_exec(c) } else { c };
        push_char(&mut s, c2);
        i += 1;
        assert(s@ =~= capitalized(tz).take(i - start));
    }
    assert(capitalized(tz).take(end - start) =~= capitalized(tz));
    s
}

fn seeds_in(b: &[char], seeds: &mut StringMap)
    ensures
        final(seeds).view() == insert_all(old(seeds).view(), seed_entries(b@, 0)),
{
    let blen = b.len();
    let needle = chars_of(".initialSeed(\"");
    let tz_n = chars_of(",window.utimezone.");
    let mut quote: Vec<char> = Vec::new();
    quote.push('"');
    assert(quote@ =~= seq!['"']);
    let mut pos: usize = 0;
    loop
        invariant
            blen == b@.len(),
            needle@ == seed_needle(),
            tz_n@ == tz_needle(),
            quote@ == seq!['"'],
            insert_all(seeds.view(), seed_entries(b@, pos as int)) == insert_all(old(seeds).view(), seed_entries(b@, 0)),
        decreases b@.len() + 1 - pos,
    {
        let f = match find(b, needle.as_slice(), pos) {
            Some(f) => f,
            None => {
                return;
            },
        };
        proof { lemma_find_from(b@, seed_needle(), pos as int); }
        let start = f + needle.len();
        let qe = match find(b, quote.as_slice(), start) {
            Some(q) => q,
            None => {
                return;
            },
        };
        proof { lemma_find_from(b@, seq!['"'], start as int); }
        match find(b, tz_n.as_slice(), qe) {
            None => {
                if qe <= pos {
                    assert(seed_entries(b@, pos as int) == Seq::<(Seq<char>, Seq<char>)>::empty());
                    return;
                }
                pos = qe;
            },
            Some(tzp) => {
                proof { lemma_find_from(b@, tz_needle(), qe as int); }
                let tz_start = tzp + tz_n.len();
                let mut tz_end = tz_start;
                while tz_end < blen && is_alpha_exec(b[tz_end])
                    invariant
                        blen == b@.len(),
                        tz_start <= tz_end <= b@.len(),
                        alpha_run_end(b@, tz_end as int) == alpha_run_end(b@, tz_start as int),
                    decreases b@.len() - tz_end,
                {
                    tz_end += 1;
                }
                let ghost rest = if tz_start > pos { seed_entries(b@, tz_start as int) } else { seq![] };
                let ghost e = seed_entries(b@, pos as int);
                if tz_end > tz_start && qe > start {
                    let key = capitalize_range(b, tz_start, tz_end);
                    let seed = string_of(b, start, qe);
                    let ghost m0 = seeds.view();
                    seeds.insert(key, seed);
                    proof {
                        assert(e == seq![(capitalized(b@.subrange(tz_start as int, tz_end as int)), b@.subrange(start as int, qe as int))] + rest);
                        assert(e.drop_first() =~= rest);
                    }
                } else {
                    assert(e == rest);
                }
                if tz_start <= pos {
                    return;
                }
                pos = tz_start;
            },
        }
    }
}

/// Scans a bundle for seeds: `.initialSeed("SEED",window.utimezone.<tz>)`,
/// adding each to `seeds` under its capitalized timezone name.
pub fn scan_seeds(bundle: &str, seeds: &mut StringMap)
    ensures
        final(seeds).view() == insert_all(old(seeds).view(), seed_entries(bundle@, 0)),
{
    let b = chars_of(bundle);
    seeds_in(b.as_slice(), seeds);
}


// ---------------------------------------------------------------------------
// Secrets
// ---------------------------------------------------------------------------

/// The anchor that marks where a timezone's secret parts follow: `/<tz>`.
pub open spec fn anchor_of(tz: Seq<char>) -> Seq<char> {
    seq!['/'] + tz
}

/// The end of the longest run of characters from `i` on whose UTF-8
/// encoding fits in `budget` bytes.
pub open spec fn window_end(s: Seq<char>, i: int, budget: int) -> int
    decreases s.len() - i,
{
    if 0 <= i < s.len() && utf8_width(s[i]) <= budget {
        window_end(s, i + 1, budget - utf8_width(s[i]))
    } else {
        i
    }
}

proof fn lemma_window_end(s: Seq<char>, i: int, budget: int)
    requires
        0 <= i <= s.len(),
    ensures
        i <= window_end(s, i, budget) <= s.len(),
    decreases s.len() - i,
{
    if 0 <= i < s.len() && utf8_width(s[i]) <= budget {
        lemma_window_end(s, i + 1, budget - utf8_width(s[i]));
    }
}

/// The secret that the text `w` after an anchor gives with `seed`: the
/// values quoted after `info:` and `extras:` are appended to the seed; all
/// of its UTF-8 bytes but the last 44 are decoded as URL-safe base64, and
/// the result, where it is valid UTF-8, is the secret.
pub open spec fn secret_in_window(seed: Seq<char>, w: Seq<char>) -> Option<Seq<char>> {
    match (quoted_value(w, "info:"@), quoted_value(w, "extras:"@)) {
        (Some(info), Some(extras)) => {
            let bytes = encode_utf8(seed + info + extras);
            if bytes.len() > 44 {
                match base64_url_safe_decoded(bytes.take(bytes.len() - 44)) {
                    Some(d) => if valid_utf8(d) { Some(decode_utf8(d)) } else { None },
                    None => None,
                }
            } else {
                None
            }
        },
        _ => None,
    }
}

/// The secret of timezone `tz` found from `pos` on: the first anchor
/// `/<tz>` whose window (the next 500 bytes of text, the anchor included)
/// gives a secret.
pub open spec fn secret_from(b: Seq<char>, tz: Seq<char>, seed: Seq<char>, pos: int) -> Option<Seq<char>>
    decreases b.len() + 1 - pos,
{
    if pos < 0 {
        None
    } else {
        match find_from(b, anchor_of(tz), pos) {
            None => None,
            Some(a) => {
                proof { lemma_find_from(b, anchor_of(tz), pos); }
                match secret_in_window(seed, b.subrange(a, window_end(b, a, 500))) {
                    Some(x) => Some(x),
                    None => secret_from(b, tz, seed, a + anchor_of(tz).len()),
                }
            },
        }
    }
}

/// The secret a bundle gives for key `k` of the seeds, if any.
pub open spec fn derived_for(b: Seq<char>, seeds: Map<Seq<char>, Seq<char>>, k: Seq<char>) -> Option<Seq<char>> {
    if seeds.contains_key(k) { secret_from(b, k, seeds[k], 0) } else { None }
}

/// The secrets after scanning a bundle: each timezone with a seed that
/// gives a secret maps to it; other keys keep what they had.
pub open spec fn with_derived(old: Map<Seq<char>, Seq<char>>, seeds: Map<Seq<char>, Seq<char>>, b: Seq<char>) -> Map<Seq<char>, Seq<char>> {
    Map::new(
        |k: Seq<char>| old.contains_key(k) || derived_for(b, seeds, k) is Some,
        |k: Seq<char>| match derived_for(b, seeds, k) {
            Some(x) => x,
            None => old[k],
        },
    )
}

/// The end of the window at `i`.
fn window_end_exec(s: &[char], i: usize, budget: usize) -> (e: usize)
    requires
        i <= s@.len(),
    ensures
        e == window_end(s@, i as int, budget as int),
{
    let slen = s.len();
    let mut j = i;
    let mut left = budget;
    while j < slen && utf8_width_exec(s[j]) <= left
        invariant
            i <= j <= s@.len(),
            slen == s@.len(),
            window_end(s@, j as int, left as int) == window_end(s@, i as int, budget as int),
        decreases s@.len() - j,
    {
        left = left - utf8_width_exec(s[j]);
        j += 1;
    }
    j
}

fn secret_in_window_exec(seed: &String, w: &[char]) -> (r: Option<String>)
    ensures
        match secret_in_window(seed@, w@) {
            Some(x) => r matches Some(s) && s@ == x,
            None => r is None,
        },
{
    let info_key = chars_of("info:");
    let extras_key = chars_of("extras:");
    let info = quoted_in(w, info_key.as_slice());
    let extras = quoted_in(w, extras_key.as_slice());
    match (info, extras) {
        (Some(info), Some(extras)) => {
            let mut combined = seed.clone();
            combined.append(info.as_str());
            combined.append(extras.as_str());
            let bytes = combined.as_str().as_bytes();
            if bytes.len() > 44 {
                let encoded = crate::wire::copy_range(bytes, 0, bytes.len() - 44);
                assert(encoded@ =~= bytes@.take(bytes@.len() - 44));
                match base64_url_safe_decode(encoded.as_slice()) {
                    Some(d) => utf8_string(d),
                    None => None,
                }
            } else {
                None
            }
        },
        _ => None,
    }
}

fn secret_for(b: &[char], tz: &String, seed: &String) -> (r: Option<String>)
    ensures
        match secret_from(b@, tz@, seed@, 0) {
            Some(x) => r matches Some(s) && s@ == x,
            None => r is None,
        },
{
    let blen = b.len();
    let mut anchor: Vec<char> = Vec::new();
    anchor.push('/');
    let tzc = chars_of(tz.as_str());
    let mut i: usize = 0;
    while i < tzc.len()
        invariant
            i <= tzc@.len(),
            tzc@ == tz@,
            anchor@ == seq!['/'] + tz@.take(i as int),
        decreases tzc@.len() - i,
    {
        anchor.push(tzc[i]);
        i += 1;
        assert(anchor@ =~= seq!['/'] + tz@.take(i as int));
    }
    assert(anchor@ =~= anchor_of(tz@));
    let mut pos: usize = 0;
    loop
        invariant
            blen == b@.len(),
            anchor@ == anchor_of(tz@),
            secret_from(b@, tz@, seed@, pos as int) == secret_from(b@, tz@, seed@, 0),
        decreases b@.len() + 1 - pos,
    {
        let a = match find(b, anchor.as_slice(), pos) {
            Some(a) => a,
            None => return None,
        };
        proof {
            lemma_find_from(b@, anchor_of(tz@), pos as int);
            lemma_window_end(b@, a as int, 500);
        }
        let we = window_end_exec(b, a, 500);
        let w = crate::wire::copy_chars(b, a, we);
        match secret_in_window_exec(seed, w.as_slice()) {
            Some(x) => return Some(x),
            None => {},
        }
        pos = a + anchor.len();
    }
}

/// Derives secrets from seeds and the `info` and `extras` parts that follow
/// each timezone anchor in the bundle.
pub fn scan_and_derive_secrets(bundle: &str, seeds: &StringMap, secrets: &mut StringMap)
    ensures
        final(secrets).view() == with_derived(old(secrets).view(), seeds.view(), bundle@),
{
    let b = chars_of(bundle);
    let entries = seeds.entries();
    let ghost e = entries@;
    let ghost old_secrets = secrets.view();
    assert(e.take(0) =~= Seq::<(String, String)>::empty());
    assert(with_derived(old_secrets, entries_map(e.take(0)), bundle@) =~= old_secrets);
    let mut i: usize = 0;
    while i < entries.len()
        invariant
            i <= e.len(),
            e == entries@,
            keys_distinct(e),
            b@ == bundle@,
            secrets.view() == with_derived(old_secrets, entries_map(e.take(i as int)), bundle@),
        decreases e.len() - i,
    {
        let tz = &entries[i].0;
        let seed = &entries[i].1;
        let ghost m = entries_map(e.take(i as int));
        proof {
            assert(e.take(i + 1).drop_last() =~= e.take(i as int));
            assert(e.take(i + 1).last() == e[i as int]);
            lemma_entries_map_keys(e.take(i as int), tz@);
            if m.contains_key(tz@) {
                let j = choose|j: int| 0 <= j < e.take(i as int).len() && #[trigger] e.take(i as int)[j].0@ == tz@;
                assert(e[j].0@ == e[i as int].0@);
            }
        }
        let found = secret_for(b.as_slice(), tz, seed);
        let ghost before = secrets.view();
        match found {
            Some(x) => {
                secrets.insert(tz.clone(), x);
            },
            None => {},
        }
        i += 1;
        proof {
            let m2 = entries_map(e.take(i as int));
            assert(m2 == m.insert(tz@, seed@));
            assert(secrets.view() =~= with_derived(old_secrets, m2, bundle@));
        }
    }
    assert(e.take(e.len() as int) =~= e);
}


// ---------------------------------------------------------------------------
// Script URLs
// ---------------------------------------------------------------------------

/// The value of attribute `key` (such as `src=`) in a tag: the text
/// between the quote right after the first `key` and the next same quote.
pub open spec fn attr_value(tag: Seq<char>, key: Seq<char>) -> Option<Seq<char>> {
    match find_from(tag, key, 0) {
        None => None,
        Some(p) => {
            let st = p + key.len();
            if st < tag.len() && (tag[st] == '"' || tag[st] == '\'') {
                match find_from(tag, seq![tag[st]], st + 1) {
                    Some(e) => Some(tag.subrange(st + 1, e)),
                    None => None,
                }
            } else {
                None
            }
        },
    }
}

/// A tag in ASCII lower case.
pub open spec fn lowered(tag: Seq<char>) -> Seq<char> {
    tag.map_values(|c: char| to_lower(c))
}

/// The script URLs named by `<script ... src="...">` tags from `pos` on,
/// absolutized, in order; only URLs that contain `.js` count.
pub open spec fn script_tag_urls(h: Seq<char>, pos: int) -> Seq<Seq<char>>
    decreases h.len() + 1 - pos,
{
    if pos < 0 {
        seq![]
    } else {
        match find_from(h, "<script"@, pos) {
            None => seq![],
            Some(start) => match find_from(h, seq!['>'], start) {
                None => seq![],
                Some(te) => {
                    proof {
                        lemma_find_from(h, "<script"@, pos);
                        lemma_find_from(h, seq!['>'], start);
                    }
                    let tag = h.subrange(start, te);
                    let rest = script_tag_urls(h, te + 1);
                    match attr_value(tag, "src="@) {
                        Some(u) => if contains(u, ".js"@) { seq![absolutized(u)] + rest } else { rest },
                        None => rest,
                    }
                },
            },
        }
    }
}

/// The script URLs named by `<link rel="preload" as="script" href="...">`
/// tags from `pos` on (attributes `rel` and `as` matched in any letter
/// case), absolutized, in order; only URLs that contain `.js` count.
pub open spec fn link_tag_urls(h: Seq<char>, pos: int) -> Seq<Seq<char>>
    decreases h.len() + 1 - pos,
{
    if pos < 0 {
        seq![]
    } else {
        match find_from(h, "<link"@, pos) {
            None => seq![],
            Some(start) => match find_from(h, seq!['>'], start) {
                None => seq![],
                Some(te) => {
                    proof {
                        lemma_find_from(h, "<link"@, pos);
                        lemma_find_from(h, seq!['>'], start);
                    }
                    let tag = h.subrange(start, te);
                    let rest = link_tag_urls(h, te + 1);
                    if contains(lowered(tag), "rel=\"preload\""@) && contains(lowered(tag), "as=\"script\""@) {
                        match attr_value(tag, "href="@) {
                            Some(u) => if contains(u, ".js"@) { seq![absolutized(u)] + rest } else { rest },
                            None => rest,
                        }
                    } else {
                        rest
                    }
                },
            },
        }
    }
}

/// Every script URL that a page names, in order of appearance (scripts,
/// then preloads), repeats included.
pub open spec fn page_script_urls(h: Seq<char>) -> Seq<Seq<char>> {
    script_tag_urls(h, 0) + link_tag_urls(h, 0)
}

/// Strict lexicographic order of character sequences, which is the order of
/// `String` (UTF-8 preserves the order of code points).
pub open spec fn lex_lt(a: Seq<char>, b: Seq<char>) -> bool
    decreases a.len(),
{
    if a.len() == 0 {
        b.len() > 0
    } else if b.len() == 0 {
        false
    } else if a[0] != b[0] {
        a[0] < b[0]
    } else {
        lex_lt(a.drop_first(), b.drop_first())
    }
}

proof fn lemma_lex_irreflexive(a: Seq<char>)
    ensures
        !lex_lt(a, a),
    decreases a.len(),
{
    if a.len() > 0 {
        lemma_lex_irreflexive(a.drop_first());
    }
}

proof fn lemma_lex_total(a: Seq<char>, b: Seq<char>)
    ensures
        lex_lt(a, b) || a == b || lex_lt(b, a),
        !(lex_lt(a, b) && lex_lt(b, a)),
    decreases a.len(),
{
    if a.len() > 0 && b.len() > 0 && a[0] == b[0] {
        lemma_lex_total(a.drop_first(), b.drop_first());
        if a.drop_first() == b.drop_first() {
            assert forall|i: int| 0 <= i < a.len() implies a[i] == b[i] by {
                if i > 0 {
                    assert(a[i] == a.drop_first()[i - 1]);
                    assert(b[i] == b.drop_first()[i - 1]);
                }
            }
            assert(a =~= b);
        }
    } else if a.len() == 0 && b.len() == 0 {
        assert(a =~= b);
    }
}

proof fn lemma_lex_transitive(a: Seq<char>, b: Seq<char>, c: Seq<char>)
    requires
        lex_lt(a, b),
        lex_lt(b, c),
    ensures
        lex_lt(a, c),
    decreases a.len(),
{
    if a.len() > 0 && b.len() > 0 && c.len() > 0 && a[0] == b[0] && b[0] == c[0] {
        lemma_lex_transitive(a.drop_first(), b.drop_first(), c.drop_first());
    }
}

fn lex_less(a: &[char], b: &[char]) -> (r: bool)
    ensures
        r == lex_lt(a@, b@),
{
    let mut i: usize = 0;
    assert(a@.skip(0) =~= a@);
    assert(b@.skip(0) =~= b@);
    while i < a.len() && i < b.len() && a[i] == b[i]
        invariant
            i <= a@.len(),
            i <= b@.len(),
            lex_lt(a@.skip(i as int), b@.skip(i as int)) == lex_lt(a@, b@),
        decreases a@.len() - i,
    {
        proof {
            assert(a@.skip(i as int).drop_first() =~= a@.skip(i + 1));
            assert(b@.skip(i as int).drop_first() =~= b@.skip(i + 1));
        }
        i += 1;
    }
    if i == a.len() {
        i < b.len()
    } else if i == b.len() {
        false
    } else {
        a[i] < b[i]
    }
}

/// Whether `u` is one of the entries of `v` (by content).
pub open spec fn holds(v: Seq<Vec<char>>, u: Seq<char>) -> bool {
    exists|i: int| 0 <= i < v.len() && #[trigger] v[i]@ == u
}

/// Whether the entries of `v` are in strictly increasing order.
pub open spec fn strictly_sorted(v: Seq<Vec<char>>) -> bool {
    forall|i: int, j: int| 0 <= i < j < v.len() ==> lex_lt(#[trigger] v[i]@, #[trigger] v[j]@)
}

/// Adds `x` to a strictly sorted list unless it holds it already.
fn insert_sorted(out: &mut Vec<Vec<char>>, x: Vec<char>)
    requires
        strictly_sorted(old(out)@),
    ensures
        strictly_sorted(final(out)@),
        forall|u: Seq<char>| holds(final(out)@, u) <==> (holds(old(out)@, u) || u == x@),
{
    let mut k: usize = 0;
    while k < out.len() && lex_less(out[k].as_slice(), x.as_slice())
        invariant
            k <= out@.len(),
            out@ == old(out)@,
            forall|j: int| 0 <= j < k ==> lex_lt(#[trigger] out@[j]@, x@),
        decreases out@.len() - k,
    {
        k += 1;
    }
    if k < out.len() && !lex_less(x.as_slice(), out[k].as_slice()) {
        proof { lemma_lex_total(x@, out@[k as int]@); }
        assert(out@[k as int]@ == x@);
        assert(holds(out@, x@));
        return;
    }
    let ghost before = out@;
    let ghost xv = x@;
    assert(before == old(out)@);
    proof {
        if k < out@.len() {
            assert(lex_lt(x@, out@[k as int]@)) by { lemma_lex_total(x@, out@[k as int]@); }
        }
    }
    out.insert(k, x);
    proof {
        assert forall|i: int, j: int| 0 <= i < j < out@.len() implies lex_lt(#[trigger] out@[i]@, #[trigger] out@[j]@) by {
            if j < k {
                assert(out@[i] == before[i] && out@[j] == before[j]);
            } else if j == k {
                assert(out@[i] == before[i]);
            } else if i < k {
                assert(out@[i] == before[i] && out@[j] == before[j - 1]);
                assert(lex_lt(before[i]@, x@));
                assert(lex_lt(x@, before[k as int]@));
                if j - 1 > k {
                    lemma_lex_transitive(x@, before[k as int]@, before[j - 1]@);
                }
                lemma_lex_transitive(before[i]@, x@, before[j - 1]@);
            } else if i == k {
                assert(out@[j] == before[j - 1]);
                if j - 1 > k {
                    lemma_lex_transitive(x@, before[k as int]@, before[j - 1]@);
                }
            } else {
                assert(out@[i] == before[i - 1] && out@[j] == before[j - 1]);
            }
        }
        assert forall|u: Seq<char>| #[trigger] holds(out@, u) <==> (holds(before, u) || u == xv) by {
            if holds(out@, u) {
                let i = choose|i: int| 0 <= i < out@.len() && #[trigger] out@[i]@ == u;
                if i < k {
                    assert(before[i]@ == u);
                } else if i > k {
                    assert(before[i - 1]@ == u);
                }
            }
            if holds(before, u) {
                let i = choose|i: int| 0 <= i < before.len() && #[trigger] before[i]@ == u;
                if i < k {
                    assert(out@[i]@ == u);
                } else {
                    assert(out@[i + 1]@ == u);
                }
            }
            if u == xv {
                assert(out@[k as int]@ == u);
            }
        }
    }
    assert(forall|u: Seq<char>| #[trigger] holds(out@, u) <==> (holds(old(out)@, u) || u == xv));
}

fn attr_value_exec(tag: &[char], key: &[char]) -> (r: Option<Vec<char>>)
    ensures
        match attr_value(tag@, key@) {
            Some(v) => r matches Some(x) && x@ == v,
            None => r is None,
        },
{
    let tlen = tag.len();
    let p = match find(tag, key, 0) {
        Some(p) => p,
        None => return None,
    };
    proof { lemma_find_from(tag@, key@, 0); }
    let st = p + key.len();
    if st < tlen && (tag[st] == '"' || tag[st] == '\'') {
        let mut q: Vec<char> = Vec::new();
        q.push(tag[st]);
        assert(q@ =~= seq![tag@[st as int]]);
        match find(tag, q.as_slice(), st + 1) {
            Some(e) => {
                proof { lemma_find_from(tag@, q@, st + 1); }
                Some(crate::wire::copy_chars(tag, st + 1, e))
            },
            None => None,
        }
    } else {
        None
    }
}

fn lowered_exec(tag: &[char]) -> (r: Vec<char>)
    ensures
        r@ == lowered(tag@),
{
    let mut r: Vec<char> = Vec::new();
    let mut i: usize = 0;
    while i < tag.len()
        invariant
            i <= tag@.len(),
            r@ == lowered(tag@.take(i as int)),
        decreases tag@.len() - i,
    {
        r.push(crate::text::to_lower_exec(tag[i]));
        i += 1;
        assert(r@ =~= lowered(tag@.take(i as int)));
    }
    assert(tag@.take(i as int) =~= tag@);
    r
}

/// Absolutizes `u` and adds it to `found`, if it names a `.js` file.
fn keep_js(found: &mut Vec<Vec<char>>, u: Vec<char>, js: &Vec<char>)
    requires
        js@ == ".js"@,
    ensures
        views_of(final(found)@) == views_of(old(found)@) + (if contains(u@, ".js"@) { seq![absolutized(u@)] } else { seq![] }),
{
    if find(u.as_slice(), js.as_slice(), 0).is_some() {
        let a = absolutize_chars(u.as_slice());
        let ac = chars_of(a.as_str());
        found.push(ac);
        assert(views_of(found@) =~= views_of(old(found)@) + seq![absolutized(u@)]);
    } else {
        assert(views_of(found@) =~= views_of(old(found)@) + Seq::<Seq<char>>::empty());
    }
}

/// The contents of the entries of `v`.
pub open spec fn views_of(v: Seq<Vec<char>>) -> Seq<Seq<char>> {
    v.map_values(|x: Vec<char>| x@)
}

fn collect_tag_urls(h: &[char], link: bool, found: &mut Vec<Vec<char>>)
    ensures
        views_of(final(found)@) == views_of(old(found)@) + (if link { link_tag_urls(h@, 0) } else { script_tag_urls(h@, 0) }),
{
    let hlen = h.len();
    let open = if link { chars_of("<link") } else { chars_of("<script") };
    let mut gt: Vec<char> = Vec::new();
    gt.push('>');
    assert(gt@ =~= seq!['>']);
    let key = if link { chars_of("href=") } else { chars_of("src=") };
    let js = chars_of(".js");
    let rel = chars_of("rel=\"preload\"");
    let as_script = chars_of("as=\"script\"");
    let ghost target = if link { link_tag_urls(h@, 0) } else { script_tag_urls(h@, 0) };
    let ghost base = views_of(old(found)@);
    let mut pos: usize = 0;
    loop
        invariant
            hlen == h@.len(),
            open@ == (if link { "<link"@ } else { "<script"@ }),
            gt@ == seq!['>'],
            key@ == (if link { "href="@ } else { "src="@ }),
            js@ == ".js"@,
            rel@ == "rel=\"preload\""@,
            as_script@ == "as=\"script\""@,
            target == (if link { link_tag_urls(h@, 0) } else { script_tag_urls(h@, 0) }),
            base + target == views_of(found@) + (if link { link_tag_urls(h@, pos as int) } else { script_tag_urls(h@, pos as int) }),
        ensures
            views_of(found@) == base + target,
        decreases h@.len() + 1 - pos,
    {
        let found_start = find(h, open.as_slice(), pos);
        if found_start.is_none() {
            proof {
                if link {
                    assert(link_tag_urls(h@, pos as int) == Seq::<Seq<char>>::empty());
                } else {
                    assert(script_tag_urls(h@, pos as int) == Seq::<Seq<char>>::empty());
                }
            }
            assert(views_of(found@) =~= base + target);
            break;
        }
        let start = match found_start {
            Some(s) => s,
            None => {
                proof {
                    if link {
                        assert(link_tag_urls(h@, pos as int) == Seq::<Seq<char>>::empty());
                    } else {
                        assert(script_tag_urls(h@, pos as int) == Seq::<Seq<char>>::empty());
                    }
                }
                assert(views_of(found@) =~= base + target);
                break;
            },
        };
        let found_te = find(h, gt.as_slice(), start);
        if found_te.is_none() {
            proof {
                if link {
                    assert(link_tag_urls(h@, pos as int) == Seq::<Seq<char>>::empty());
                } else {
                    assert(script_tag_urls(h@, pos as int) == Seq::<Seq<char>>::empty());
                }
            }
            assert(views_of(found@) =~= base + target);
            break;
        }
        let te = match found_te {
            Some(t) => t,
            None => {
                proof {
                    if link {
                        assert(link_tag_urls(h@, pos as int) == Seq::<Seq<char>>::empty());
                    } else {
                        assert(script_tag_urls(h@, pos as int) == Seq::<Seq<char>>::empty());
                    }
                }
                assert(views_of(found@) =~= base + target);
                break;
            },
        };
        proof {
            lemma_find_from(h@, open@, pos as int);
            lemma_find_from(h@, seq!['>'], start as int);
        }
        let tag = crate::wire::copy_chars(h, start, te);
        let ghost before = views_of(found@);
        let ghost rest = if link { link_tag_urls(h@, te + 1) } else { script_tag_urls(h@, te + 1) };
        let eligible = if link {
            let low = lowered_exec(tag.as_slice());
            find(low.as_slice(), rel.as_slice(), 0).is_some() && find(low.as_slice(), as_script.as_slice(), 0).is_some()
        } else {
            true
        };
        if eligible {
            match attr_value_exec(tag.as_slice(), key.as_slice()) {
                Some(u) => {
                    keep_js(found, u, &js);
                },
                None => {},
            }
        }
        proof {
            assert(views_of(found@) + rest =~= before + (if link { link_tag_urls(h@, pos as int) } else { script_tag_urls(h@, pos as int) }));
        }
        pos = te + 1;
    }
}

/// Extracts the script URLs of a page: those of `<script src="...">` tags
/// and of `<link rel="preload" as="script" href="...">` tags that contain
/// `.js`, made absolute, sorted and without repeats.
pub fn extract_script_urls(html: &str) -> (urls: Vec<String>)
    ensures
        forall|i: int, j: int| 0 <= i < j < urls@.len() ==> lex_lt(#[trigger] urls@[i]@, #[trigger] urls@[j]@),
        forall|u: Seq<char>| (exists|i: int| 0 <= i < urls@.len() && #[trigger] urls@[i]@ == u)
            <==> page_script_urls(html@).contains(u),
{
    let h = chars_of(html);
    let mut found: Vec<Vec<char>> = Vec::new();
    assert(views_of(found@) =~= Seq::<Seq<char>>::empty());
    collect_tag_urls(h.as_slice(), false, &mut found);
    collect_tag_urls(h.as_slice(), true, &mut found);
    assert(views_of(found@) =~= page_script_urls(html@));
    let mut sorted: Vec<Vec<char>> = Vec::new();
    let mut i: usize = 0;
    while i < found.len()
        invariant
            i <= found@.len(),
            views_of(found@) == page_script_urls(html@),
            strictly_sorted(sorted@),
            forall|u: Seq<char>| holds(sorted@, u) <==> views_of(found@).take(i as int).contains(u),
        decreases found@.len() - i,
    {
        let x = crate::wire::copy_chars(found[i].as_slice(), 0, found[i].len());
        assert(x@ =~= found@[i as int]@);
        let ghost before = sorted@;
        let ghost t0 = views_of(found@).take(i as int);
        insert_sorted(&mut sorted, x);
        i += 1;
        proof {
            let t = views_of(found@).take(i as int);
            assert(t =~= t0.push(x@));
            assert forall|u: Seq<char>| holds(sorted@, u) <==> t.contains(u) by {
                assert(holds(sorted@, u) <==> (holds(before, u) || u == x@));
                assert(holds(before, u) <==> t0.contains(u));
                if t.contains(u) {
                    let j = choose|j: int| 0 <= j < t.len() && t[j] == u;
                    if j < t0.len() {
                        assert(t0[j] == u);
                    }
                }
                if t0.contains(u) {
                    let j = choose|j: int| 0 <= j < t0.len() && t0[j] == u;
                    assert(t[j] == u);
                }
                if u == x@ {
                    assert(t[t0.len() as int] == u);
                }
            }
        }
    }
    assert(views_of(found@).take(i as int) =~= views_of(found@));
    let mut urls: Vec<String> = Vec::new();
    let mut k: usize = 0;
    while k < sorted.len()
        invariant
            k <= sorted@.len(),
            urls@.len() == k,
            forall|j: int| 0 <= j < k ==> #[trigger] urls@[j]@ == sorted@[j]@,
        decreases sorted@.len() - k,
    {
        urls.push(string_of(sorted[k].as_slice(), 0, sorted[k].len()));
        assert(sorted@[k as int]@.subrange(0, sorted@[k as int]@.len() as int) =~= sorted@[k as int]@);
        k += 1;
    }
    proof {
        assert forall|u: Seq<char>| (exists|i: int| 0 <= i < urls@.len() && #[trigger] urls@[i]@ == u)
            <==> page_script_urls(html@).contains(u) by {
            if exists|i: int| 0 <= i < urls@.len() && #[trigger] urls@[i]@ == u {
                let j = choose|j: int| 0 <= j < urls@.len() && #[trigger] urls@[j]@ == u;
                assert(sorted@[j]@ == u);
                assert(holds(sorted@, u));
                assert(views_of(found@).take(i as int).contains(u));
            }
            if page_script_urls(html@).contains(u) {
                assert(views_of(found@).take(i as int).contains(u));
                assert(holds(sorted@, u));
                let j = choose|j: int| 0 <= j < sorted@.len() && #[trigger] sorted@[j]@ == u;
                assert(urls@[j]@ == u);
            }
        }
    }
    urls
}


// ---------------------------------------------------------------------------
// The fetch
// ---------------------------------------------------------------------------

/// Scraped Qobuz app credentials.
#[derive(Debug, Clone, PartialEq, Default)]
pub struct AppCredentials {
    pub app_id: String,
    pub app_secret: String,
}

/// The origin that a bundle URL must name to be fetched.
pub open spec fn player_host() -> Seq<char> {
    "play.qobuz.com"@
}

/// Progress of fetching the credentials: the script URLs of the login
/// page, how far they have been gone through, and what the bundles fetched
/// so far gave. The code around it fetches the page and the bundles.
#[derive(Debug)]
pub struct CredentialScan {
    urls: Vec<String>,
    next: usize,
    app_id: String,
    seeds: StringMap,
    secrets: StringMap,
    done: bool,
}

impl CredentialScan {
    #[verifier::type_invariant]
    closed spec fn wf(self) -> bool {
        self.next <= self.urls@.len()
    }

    /// The script URLs of the login page, sorted and without repeats.
    pub closed spec fn urls(&self) -> Seq<String> {
        self.urls@
    }

    /// How many of the URLs have been gone through.
    pub closed spec fn position(&self) -> nat {
        self.next as nat
    }

    /// The app id found so far (empty while none).
    pub closed spec fn found_app_id(&self) -> Seq<char> {
        self.app_id@
    }

    /// The seeds found so far, by timezone.
    pub closed spec fn found_seeds(&self) -> Map<Seq<char>, Seq<char>> {
        self.seeds.view()
    }

    /// The secrets derived so far, by timezone.
    pub closed spec fn found_secrets(&self) -> Map<Seq<char>, Seq<char>> {
        self.secrets.view()
    }

    /// Whether both an app id and a secret have been found, so that no
    /// more bundles are fetched.
    pub closed spec fn complete(&self) -> bool {
        self.done
    }

    /// Starts from the HTML of the login page.
    pub fn start(html: &str) -> (s: CredentialScan)
        ensures
            forall|i: int, j: int| 0 <= i < j < s.urls().len() ==> lex_lt(#[trigger] s.urls()[i]@, #[trigger] s.urls()[j]@),
            forall|u: Seq<char>| (exists|i: int| 0 <= i < s.urls().len() && #[trigger] s.urls()[i]@ == u)
                <==> page_script_urls(html@).contains(u),
            s.position() == 0,
            s.found_app_id().len() == 0,
            s.found_seeds() == Map::<Seq<char>, Seq<char>>::empty(),
            s.found_secrets() == Map::<Seq<char>, Seq<char>>::empty(),
            !s.complete(),
    {
        let urls = extract_script_urls(html);
        let ghost u = urls@;
        let s = CredentialScan {
            urls,
            next: 0,
            app_id: String::new(),
            seeds: StringMap::new(),
            secrets: StringMap::new(),
            done: false,
        };
        assert(s.urls() == u);
        s
    }

    /// The script URLs of the login page.
    pub fn script_urls(&self) -> (u: &Vec<String>)
        ensures
            u@ == self.urls(),
    {
        &self.urls
    }

    /// The next bundle to fetch: the next URL that names the web player's
    /// origin. `None` once the credentials are complete or the URLs are
    /// gone through.
    pub fn next_bundle_url(&mut self) -> (r: Option<String>)
        ensures
            final(self).urls() == old(self).urls(),
            final(self).found_app_id() == old(self).found_app_id(),
            final(self).found_seeds() == old(self).found_seeds(),
            final(self).found_secrets() == old(self).found_secrets(),
            final(self).complete() == old(self).complete(),
            final(self).position() <= final(self).urls().len(),
            old(self).complete() ==> r is None && final(self).position() == old(self).position(),
            !old(self).complete() ==> {
                &&& forall|j: int| old(self).position() <= j < final(self).position() - (if r is Some { 1int } else { 0int })
                    ==> !contains(#[trigger] old(self).urls()[j]@, player_host())
                &&& match r {
                    Some(u) => final(self).position() >= 1 && u@ == old(self).urls()[final(self).position() - 1]@
                        && contains(u@, player_host()),
                    None => final(self).position() == old(self).urls().len(),
                }
            },
    {
        proof { use_type_invariant(&*self); }
        if self.done {
            return None;
        }
        let host = chars_of("play.qobuz.com");
        while self.next < self.urls.len()
            invariant
                self.urls@ == old(self).urls@,
                self.app_id == old(self).app_id,
                self.seeds == old(self).seeds,
                self.secrets == old(self).secrets,
                self.done == old(self).done,
                !self.done,
                old(self).next <= self.next <= self.urls@.len(),
                host@ == player_host(),
                forall|j: int| old(self).next <= j < self.next ==> !contains(#[trigger] self.urls@[j]@, player_host()),
            decreases self.urls@.len() - self.next,
        {
            let i = self.next;
            self.next = i + 1;
            let u = chars_of(self.urls[i].as_str());
            if find(u.as_slice(), host.as_slice(), 0).is_some() {
                return Some(self.urls[i].clone());
            }
        }
        None
    }

    /// Takes in a fetched bundle: the app id where none was found yet, its
    /// seeds, and the secrets they give.
    pub fn scan_bundle(&mut self, bundle: &str)
        ensures
            final(self).urls() == old(self).urls(),
            final(self).position() == old(self).position(),
            final(self).found_app_id() == (if old(self).found_app_id().len() == 0 {
                match spec_app_id(bundle@) {
                    Some(id) => id,
                    None => old(self).found_app_id(),
                }
            } else {
                old(self).found_app_id()
            }),
            final(self).found_seeds() == insert_all(old(self).found_seeds(), seed_entries(bundle@, 0)),
            final(self).found_secrets() == with_derived(old(self).found_secrets(), final(self).found_seeds(), bundle@),
            final(self).complete() == (final(self).found_app_id().len() > 0 && final(self).found_secrets().dom().len() > 0),
    {
        proof { use_type_invariant(&*self); }
        if self.app_id.as_str().is_empty() {
            match scan_app_id(bundle) {
                Some(id) => {
                    self.app_id = id;
                },
                None => {},
            }
        }
        let mut seeds = StringMap::new();
        std::mem::swap(&mut seeds, &mut self.seeds);
        scan_seeds(bundle, &mut seeds);
        let mut secrets = StringMap::new();
        std::mem::swap(&mut secrets, &mut self.secrets);
        scan_and_derive_secrets(bundle, &seeds, &mut secrets);
        self.seeds = seeds;
        self.secrets = secrets;
        self.done = !self.app_id.as_str().is_empty() && !self.secrets.is_empty();
    }

    /// The credentials, once bundles are gone through: an error where no
    /// secret was found, else where no app id was found.
    pub fn finish(&self) -> (r: Result<AppCredentials, Error>)
        ensures
            self.found_secrets().dom().len() == 0 ==> (r matches Err(Error::InvalidResponse(m)) && m@ == "no app secret found"@),
            self.found_secrets().dom().len() > 0 && self.found_app_id().len() == 0
                ==> (r matches Err(Error::InvalidResponse(m)) && m@ == "no app id found"@),
            self.found_secrets().dom().len() > 0 && self.found_app_id().len() > 0 ==> (r matches Ok(c)
                && c.app_id@ == self.found_app_id()
                && exists|k: Seq<char>| #[trigger] self.found_secrets().contains_key(k) && self.found_secrets()[k] == c.app_secret@),
    {
        let secret = match self.secrets.any_value() {
            Some(s) => s,
            None => return Err(Error::InvalidResponse("no app secret found".to_owned())),
        };
        if self.app_id.as_str().is_empty() {
            return Err(Error::InvalidResponse("no app id found".to_owned()));
        }
        Ok(AppCredentials { app_id: self.app_id.clone(), app_secret: secret })
    }
}

} // verus!
