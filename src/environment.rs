use vstd::prelude::*;
use vstd::slice::slice_to_vec;
use vstd::string::StringSliceAdditionalSpecFns;

verus! {

/// Values of an environment variable that switch a setting on.
pub const TRUE_VALUES_CONSTS: [&'static str; 3] = ["1", "true", "yes"];

/// Values of an environment variable that switch a setting off.
pub const FALSE_VALUES_CONSTS: [&'static str; 3] = ["0", "false", "no"];

/// Only this many leading bytes of a value are looked at; no literal above is longer.
pub const MAX_VALUES_CONST_LEN: usize = 5;

/// ASCII lower-casing of one byte; every other byte is left as it is.
pub open spec fn lower_byte(b: u8) -> u8 {
    if 65 <= b <= 90 {
        (b + 32) as u8
    } else {
        b
    }
}

/// The part of a value that is classified: at most its first
/// `MAX_VALUES_CONST_LEN` bytes, lower-cased.
pub open spec fn folded_prefix(v: Seq<u8>) -> Seq<u8> {
    let n = if v.len() < MAX_VALUES_CONST_LEN { v.len() as int } else { MAX_VALUES_CONST_LEN as int };
    v.take(n).map_values(|b: u8| lower_byte(b))
}

/// The folded prefix of `v` is spelled exactly as one of `lits`.
pub open spec fn matches_literal(lits: [&'static str; 3], v: Seq<u8>) -> bool {
    exists|i: int| 0 <= i < 3 && folded_prefix(v) == #[trigger] lits@[i].spec_bytes()
}

/// A value that reads as "on".
pub open spec fn is_on_value(v: Seq<u8>) -> bool {
    matches_literal(TRUE_VALUES_CONSTS, v)
}

/// A value that reads as "off".
pub open spec fn is_off_value(v: Seq<u8>) -> bool {
    matches_literal(FALSE_VALUES_CONSTS, v)
}

/// The variables' keys are pairwise distinct.
pub open spec fn keys_unique(s: Seq<(Vec<u8>, Vec<u8>)>) -> bool {
    forall|i: int, j: int|
        0 <= i < s.len() && 0 <= j < s.len() && i != j ==> #[trigger] s[i].0@ != #[trigger] s[j].0@
}

/// The map from key to value that a list of entries stands for.
pub open spec fn entries_map(s: Seq<(Vec<u8>, Vec<u8>)>) -> Map<Seq<u8>, Seq<u8>> {
    Map::new(
        |k: Seq<u8>| exists|i: int| 0 <= i < s.len() && #[trigger] s[i].0@ == k,
        |k: Seq<u8>| s[choose|i: int| 0 <= i < s.len() && #[trigger] s[i].0@ == k].1@,
    )
}

/// An environment: a table from variable names to values, both raw bytes.
///
/// The bootstrap reads and writes variables through this value, so that
/// each step sees the writes of the steps before it.
pub struct EnvVars {
    vars: Vec<(Vec<u8>, Vec<u8>)>,
}

impl View for EnvVars {
    type V = Map<Seq<u8>, Seq<u8>>;

    closed spec fn view(&self) -> Map<Seq<u8>, Seq<u8>> {
        entries_map(self.vars@)
    }
}

impl EnvVars {
    /// No variable appears twice.
    pub closed spec fn wf(&self) -> bool {
        keys_unique(self.vars@)
    }

    /// An environment without variables.
    pub fn new() -> (r: EnvVars)
        ensures
            r.wf(),
            r@ == Map::<Seq<u8>, Seq<u8>>::empty(),
    {
        let r = EnvVars { vars: Vec::new() };
        assert(r@ =~= Map::<Seq<u8>, Seq<u8>>::empty());
        r
    }

    /// Where `key` stands among the entries, if it does.
    fn position(&self, key: &[u8]) -> (r: Option<usize>)
        requires
            self.wf(),
        ensures
            r matches Some(i) ==> i < self.vars@.len() && self.vars@[i as int].0@ == key@,
            r is None ==> forall|i: int| 0 <= i < self.vars@.len() ==> #[trigger] self.vars@[i].0@ != key@,
    {
        let mut i: usize = 0;
        while i < self.vars.len()
            invariant
                i <= self.vars@.len(),
                forall|j: int| 0 <= j < i ==> #[trigger] self.vars@[j].0@ != key@,
            decreases self.vars@.len() - i,
        {
            if bytes_equal(self.vars[i].0.as_slice(), key) {
                return Some(i);
            }
            i = i + 1;
        }
        None
    }

    /// The value of `key`, if it is set.
    pub fn get(&self, key: &[u8]) -> (r: Option<&Vec<u8>>)
        requires
            self.wf(),
        ensures
            r is Some <==> self@.contains_key(key@),
            r matches Some(v) ==> v@ == self@[key@],
    {
        match self.position(key) {
            Some(i) => {
                assert(self@.contains_key(key@));
                Some(&self.vars[i].1)
            },
            None => {
                assert(!self@.contains_key(key@));
                None
            },
        }
    }

    /// Sets `key` to `value`, replacing any earlier value.
    pub fn set(&mut self, key: &[u8], value: &[u8])
        requires
            old(self).wf(),
        ensures
            final(self).wf(),
            final(self)@ == old(self)@.insert(key@, value@),
    {
        let ghost before = self.vars@;
        let entry = (slice_to_vec(key), slice_to_vec(value));
        let ghost mut at: int = before.len() as int;
        match self.position(key) {
            Some(i) => {
                self.vars.set(i, entry);
                proof {
                    at = i as int;
                }
            },
            None => {
                self.vars.push(entry);
            },
        }
        proof {
            let after = self.vars@;
            let target = entries_map(before).insert(key@, value@);
            assert(keys_unique(after));
            assert forall|k: Seq<u8>| #[trigger] target.contains_key(k) implies entries_map(after).contains_key(k)
                && entries_map(after)[k] == target[k] by {
                if k == key@ {
                    lemma_entry_found(after, at);
                } else {
                    let j = choose|j: int| 0 <= j < before.len() && #[trigger] before[j].0@ == k;
                    assert(after[j] == before[j]);
                    lemma_entry_found(before, j);
                    lemma_entry_found(after, j);
                }
            }
            assert forall|k: Seq<u8>| #[trigger] entries_map(after).contains_key(k) implies target.contains_key(k) by {
                let j = choose|j: int| 0 <= j < after.len() && #[trigger] after[j].0@ == k;
                if k != key@ {
                    assert(before[j].0@ == k);
                }
            }
            assert(entries_map(after) =~= target);
        }
    }
}

/// With distinct keys, each entry's key maps to that entry's value.
proof fn lemma_entry_found(s: Seq<(Vec<u8>, Vec<u8>)>, i: int)
    requires
        keys_unique(s),
        0 <= i < s.len(),
    ensures
        entries_map(s).contains_key(s[i].0@),
        entries_map(s)[s[i].0@] == s[i].1@,
{
    let k = s[i].0@;
    assert(entries_map(s).contains_key(k));
    let j = choose|j: int| 0 <= j < s.len() && #[trigger] s[j].0@ == k;
    assert(j == i);
}

/// No on or off literal is longer than `MAX_VALUES_CONST_LEN` bytes, so
/// cutting a value to that length never hides a literal.
pub proof fn lemma_literals_fit()
    ensures
        forall|i: int|
            0 <= i < 3 ==> #[trigger] TRUE_VALUES_CONSTS@[i].spec_bytes().len() <= MAX_VALUES_CONST_LEN,
        forall|i: int|
            0 <= i < 3 ==> #[trigger] FALSE_VALUES_CONSTS@[i].spec_bytes().len() <= MAX_VALUES_CONST_LEN,
{
    broadcast use vstd::string::group_string_axioms;

    reveal_strlit("1");
    reveal_strlit("true");
    reveal_strlit("yes");
    reveal_strlit("0");
    reveal_strlit("false");
    reveal_strlit("no");
    assert forall|i: int| 0 <= i < 3 implies #[trigger] TRUE_VALUES_CONSTS@[i].spec_bytes().len()
        <= MAX_VALUES_CONST_LEN by {
        let s = TRUE_VALUES_CONSTS@[i];
        assert(vstd::string::is_ascii(s));
    }
    assert forall|i: int| 0 <= i < 3 implies #[trigger] FALSE_VALUES_CONSTS@[i].spec_bytes().len()
        <= MAX_VALUES_CONST_LEN by {
        let s = FALSE_VALUES_CONSTS@[i];
        assert(vstd::string::is_ascii(s));
    }
}

/// Letter case does not change how a value reads: two values that are equal
/// up to ASCII case are both on, both off, or both neither.
pub proof fn lemma_classification_ignores_case(v: Seq<u8>, w: Seq<u8>)
    requires
        v.len() == w.len(),
        forall|i: int| 0 <= i < v.len() ==> lower_byte(#[trigger] v[i]) == lower_byte(w[i]),
    ensures
        is_on_value(v) == is_on_value(w),
        is_off_value(v) == is_off_value(w),
{
    assert(folded_prefix(v) =~= folded_prefix(w));
}

/// Only the first `MAX_VALUES_CONST_LEN` bytes of a value decide how it reads.
pub proof fn lemma_classification_reads_prefix(v: Seq<u8>)
    ensures
        v.len() >= MAX_VALUES_CONST_LEN ==> is_on_value(v) == is_on_value(v.take(MAX_VALUES_CONST_LEN as int)),
        v.len() >= MAX_VALUES_CONST_LEN ==> is_off_value(v) == is_off_value(v.take(MAX_VALUES_CONST_LEN as int)),
{
    if v.len() >= MAX_VALUES_CONST_LEN {
        assert(folded_prefix(v) =~= folded_prefix(v.take(MAX_VALUES_CONST_LEN as int)));
    }
}

/// ASCII lower-casing of one byte.
fn fold_byte(b: u8) -> (r: u8)
    ensures
        r == lower_byte(b),
{
    if 65 <= b && b <= 90 {
        b + 32
    } else {
        b
    }
}

/// Whether the first bytes of `value`, lower-cased, spell one of `consts`.
///
/// A value longer than `MAX_VALUES_CONST_LEN` bytes is cut to that length
/// first, so `"false-ish"` reads as `"false"`. Lower-casing touches ASCII
/// letters only, so with ASCII literals, such as the on and off sets above,
/// a prefix holding any other byte never matches.
pub fn values_contains(consts: &[&'static str; 3], value: &[u8]) -> (r: bool)
    ensures
        r == matches_literal(*consts, value@),
{
    let n: usize = if value.len() < MAX_VALUES_CONST_LEN {
        value.len()
    } else {
        MAX_VALUES_CONST_LEN
    };
    let mut folded: Vec<u8> = Vec::new();
    let mut i: usize = 0;
    while i < n
        invariant
            n <= value@.len(),
            i <= n,
            folded@ == value@.take(i as int).map_values(|b: u8| lower_byte(b)),
        decreases n - i,
    {
        folded.push(fold_byte(value[i]));
        i = i + 1;
        assert(folded@ =~= value@.take(i as int).map_values(|b: u8| lower_byte(b)));
    }
    assert(folded@ == folded_prefix(value@));
    let mut k: usize = 0;
    while k < 3
        invariant
            k <= 3,
            folded@ == folded_prefix(value@),
            forall|j: int| 0 <= j < k ==> folded@ != #[trigger] consts@[j].spec_bytes(),
        decreases 3 - k,
    {
        if bytes_equal(folded.as_slice(), consts[k].as_bytes()) {
            return true;
        }
        k = k + 1;
    }
    false
}

/// Whether `key` is set to a value that reads as "on".
pub fn is_env_on(env: &EnvVars, key: &str) -> (r: bool)
    requires
        env.wf(),
    ensures
        r == (env@.contains_key(key.spec_bytes()) && is_on_value(env@[key.spec_bytes()])),
{
    match env.get(key.as_bytes()) {
        Some(v) => values_contains(&TRUE_VALUES_CONSTS, v.as_slice()),
        None => false,
    }
}

/// Whether `key` is set to a value that reads as "off".
pub fn is_env_off(env: &EnvVars, key: &str) -> (r: bool)
    requires
        env.wf(),
    ensures
        r == (env@.contains_key(key.spec_bytes()) && is_off_value(env@[key.spec_bytes()])),
{
    match env.get(key.as_bytes()) {
        Some(v) => values_contains(&FALSE_VALUES_CONSTS, v.as_slice()),
        None => false,
    }
}

/// Whether `key` is set at all, whatever its value.
pub fn has_env(env: &EnvVars, key: &str) -> (r: bool)
    requires
        env.wf(),
    ensures
        r == env@.contains_key(key.spec_bytes()),
{
    env.get(key.as_bytes()).is_some()
}

/// Whether two byte strings are equal.
fn bytes_equal(a: &[u8], b: &[u8]) -> (r: bool)
    ensures
        r == (a@ == b@),
{
    if a.len() != b.len() {
        return false;
    }
    let mut i: usize = 0;
    while i < a.len()
        invariant
            a@.len() == b@.len(),
            i <= a@.len(),
            forall|j: int| 0 <= j < i ==> a@[j] == b@[j],
        decreases a@.len() - i,
    {
        if a[i] != b[i] {
            return false;
        }
        i = i + 1;
    }
    assert(a@ =~= b@);
    true
}

} // verus!
