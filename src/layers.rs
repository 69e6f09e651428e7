//! Layered configuration: computed defaults, then the entries of a base file,
//! then environment variables, each later source overriding the earlier ones.
//! Keys are dotted paths (`auth.type`); an environment variable addresses a key
//! by a prefix, a separator in place of each dot, and any letter case.

use vstd::prelude::*;

verus! {

/// Value of the last entry named `key`.
pub open spec fn entry_value(entries: Seq<(String, String)>, key: Seq<char>) -> Option<Seq<char>>
    decreases entries.len(),
{
    if entries.len() == 0 {
        None
    } else if entries.last().0@ == key {
        Some(entries.last().1@)
    } else {
        entry_value(entries.drop_last(), key)
    }
}

pub open spec fn is_upper(c: char) -> bool {
    'A' <= c && c <= 'Z'
}

/// Two characters equal up to ASCII letter case.
pub open spec fn same_letter(a: char, b: char) -> bool {
    a == b || (is_upper(a) && a as u32 + 32 == b as u32) || (is_upper(b) && b as u32 + 32
        == a as u32)
}

pub open spec fn same_ignoring_case(a: Seq<char>, b: Seq<char>) -> bool {
    a.len() == b.len() && forall|i: int| 0 <= i < a.len() ==> same_letter(#[trigger] a[i], b[i])
}

/// The key with each dot replaced by `sep`.
pub open spec fn with_separator(key: Seq<char>, sep: Seq<char>) -> Seq<char>
    decreases key.len(),
{
    if key.len() == 0 {
        key
    } else {
        with_separator(key.drop_last(), sep) + if key.last() == '.' {
            sep
        } else {
            seq![key.last()]
        }
    }
}

/// The environment variable name that addresses `key`.
pub open spec fn env_name(prefix: Seq<char>, sep: Seq<char>, key: Seq<char>) -> Seq<char> {
    prefix + sep + with_separator(key, sep)
}

/// Value of the last variable whose name equals `name` up to letter case.
pub open spec fn env_value(vars: Seq<(String, String)>, name: Seq<char>) -> Option<Seq<char>>
    decreases vars.len(),
{
    if vars.len() == 0 {
        None
    } else if same_ignoring_case(vars.last().0@, name) {
        Some(vars.last().1@)
    } else {
        env_value(vars.drop_last(), name)
    }
}

/// The three sources of one configured value, from the lowest precedence up.
pub struct Sources {
    pub defaults: Vec<(String, String)>,
    pub file: Vec<(String, String)>,
    pub env: Vec<(String, String)>,
}

impl Sources {
    /// The value that the merge gives `key`: from the environment where a
    /// variable addresses it, else from the file, else from the defaults.
    pub open spec fn value(&self, prefix: Seq<char>, sep: Seq<char>, key: Seq<char>) -> Option<
        Seq<char>,
    > {
        match env_value(self.env@, env_name(prefix, sep, key)) {
            Some(v) => Some(v),
            None => match entry_value(self.file@, key) {
                Some(v) => Some(v),
                None => entry_value(self.defaults@, key),
            },
        }
    }

    /// Looks `key` up through the three sources.
    pub fn get(&self, prefix: &str, sep: &str, key: &str) -> (r: Option<String>)
        ensures
            crate::url_text::opt_view(r) == self.value(prefix@, sep@, key@),
    {
        let name = env_name_of(prefix, sep, key);
        match env_lookup(&self.env, &name) {
            Some(v) => Some(v),
            None => match entry_lookup(&self.file, key) {
                Some(v) => Some(v),
                None => entry_lookup(&self.defaults, key),
            },
        }
    }
}

/// Value of the last entry named `key`.
pub fn entry_lookup(entries: &Vec<(String, String)>, key: &str) -> (r: Option<String>)
    ensures
        crate::url_text::opt_view(r) == entry_value(entries@, key@),
{
    let mut i: usize = entries.len();
    assert(entries@.take(i as int) =~= entries@);
    while i > 0
        invariant
            i <= entries@.len(),
            entry_value(entries@, key@) == entry_value(entries@.take(i as int), key@),
        decreases i,
    {
        let ghost s = entries@.take(i as int);
        assert(s.drop_last() =~= entries@.take(i - 1));
        if crate::url_text::text_eq(entries[i - 1].0.as_str(), key) {
            return Some(entries[i - 1].1.clone());
        }
        i = i - 1;
    }
    None
}

/// Whether two characters are equal up to ASCII letter case.
fn letter_eq(a: char, b: char) -> (r: bool)
    ensures
        r == same_letter(a, b),
{
    a == b || ('A' <= a && a <= 'Z' && a as u32 + 32 == b as u32) || ('A' <= b && b <= 'Z'
        && b as u32 + 32 == a as u32)
}

/// Whether two texts are equal up to ASCII letter case.
pub fn eq_ignoring_case(a: &str, b: &str) -> (r: bool)
    ensures
        r == same_ignoring_case(a@, b@),
{
    let n = a.unicode_len();
    if n != b.unicode_len() {
        return false;
    }
    let mut i: usize = 0;
    while i < n
        invariant
            n == a@.len(),
            n == b@.len(),
            i <= n,
            forall|j: int| 0 <= j < i ==> same_letter(#[trigger] a@[j], b@[j]),
        decreases n - i,
    {
        if !letter_eq(a.get_char(i), b.get_char(i)) {
            return false;
        }
        i = i + 1;
    }
    true
}

/// Value of the last variable whose name equals `name` up to letter case.
pub fn env_lookup(vars: &Vec<(String, String)>, name: &str) -> (r: Option<String>)
    ensures
        crate::url_text::opt_view(r) == env_value(vars@, name@),
{
    let mut i: usize = vars.len();
    assert(vars@.take(i as int) =~= vars@);
    while i > 0
        invariant
            i <= vars@.len(),
            env_value(vars@, name@) == env_value(vars@.take(i as int), name@),
        decreases i,
    {
        let ghost s = vars@.take(i as int);
        assert(s.drop_last() =~= vars@.take(i - 1));
        if eq_ignoring_case(vars[i - 1].0.as_str(), name) {
            return Some(vars[i - 1].1.clone());
        }
        i = i - 1;
    }
    None
}

/// The environment variable name that addresses `key`: the prefix, the
/// separator, and the key with each dot replaced by the separator.
pub fn env_name_of(prefix: &str, sep: &str, key: &str) -> (r: String)
    ensures
        r@ == env_name(prefix@, sep@, key@),
{
    let mut r = prefix.to_string();
    r.append(sep);
    let n = key.unicode_len();
    let mut i: usize = 0;
    while i < n
        invariant
            n == key@.len(),
            i <= n,
            r@ == prefix@ + sep@ + with_separator(key@.take(i as int), sep@),
        decreases n - i,
    {
        let ghost t = key@.take(i + 1);
        assert(t.drop_last() =~= key@.take(i as int));
        let c = key.substring_char(i, i + 1);
        if key.get_char(i) == '.' {
            r.append(sep);
        } else {
            r.append(c);
            assert(c@ =~= seq![key@[i as int]]);
        }
        proof {
            assert(r@ =~= prefix@ + sep@ + with_separator(t, sep@));
        }
        i = i + 1;
    }
    assert(key@.take(n as int) =~= key@);
    r
}

/// An environment override wins: where the last variable addresses `key`
/// under the prefix and separator, the merged value is that variable's,
/// whatever the file and the defaults hold.
pub proof fn lemma_env_override_wins(src: Sources, prefix: Seq<char>, sep: Seq<char>, key: Seq<char>)
    requires
        src.env@.len() > 0,
        same_ignoring_case(src.env@.last().0@, env_name(prefix, sep, key)),
    ensures
        src.value(prefix, sep, key) == Some(src.env@.last().1@),
{
}

/// A file entry wins over the defaults where no variable addresses the key.
pub proof fn lemma_file_over_defaults(src: Sources, prefix: Seq<char>, sep: Seq<char>, key: Seq<char>)
    requires
        env_value(src.env@, env_name(prefix, sep, key)) is None,
        entry_value(src.file@, key) is Some,
    ensures
        src.value(prefix, sep, key) == entry_value(src.file@, key),
{
}

} // verus!
