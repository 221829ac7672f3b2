use vstd::prelude::*;

verus! {

/// A `KEY=value` argument that holds no `=`.
#[derive(Debug, PartialEq, Eq)]
pub struct KeyValError {
    pub input: String,
}

impl KeyValError {
    /// A sentence naming the offending argument.
    pub fn message(&self) -> (r: String)
        ensures
            r@ == "invalid KEY=value: no `=` found in `"@ + self.input@ + "`"@,
    {
        let mut m = String::from_str("invalid KEY=value: no `=` found in `");
        m.append(self.input.as_str());
        m.append("`");
        m
    }
}

/// Splits `KEY=value` at its first `=`.
pub fn key_val(s: &str) -> (r: Result<(String, String), KeyValError>)
    ensures
        match r {
            Ok((k, v)) => k@ + seq!['='] + v@ == s@ && !k@.contains('='),
            Err(e) => !s@.contains('=') && e.input@ == s@,
        },
{
    let n = s.unicode_len();
    let mut i: usize = 0;
    while i < n
        invariant
            n == s@.len(),
            i <= n,
            forall|j: int| 0 <= j < i ==> s@[j] != '=',
        decreases n - i,
    {
        if s.get_char(i) == '=' {
            let k = String::from_str(s.substring_char(0, i));
            let v = String::from_str(s.substring_char(i + 1, n));
            assert(k@ + seq!['='] + v@ =~= s@);
            assert(!k@.contains('=')) by {
                if k@.contains('=') {
                    let j = choose|j: int| 0 <= j < k@.len() && k@[j] == '=';
                    assert(s@[j] == '=');
                }
            }
            return Ok((k, v));
        }
        i = i + 1;
    }
    Err(KeyValError { input: String::from_str(s) })
}

/// A key with its value.
#[derive(Debug)]
pub struct Pair<K, V> {
    pub key: K,
    pub value: V,
}

impl<K, V> From<(K, V)> for Pair<K, V> {
    fn from(kv: (K, V)) -> (r: Pair<K, V>) {
        Pair { key: kv.0, value: kv.1 }
    }
}

impl<K, V> vstd::std_specs::convert::FromSpecImpl<(K, V)> for Pair<K, V> {
    open spec fn obeys_from_spec() -> bool {
        true
    }

    open spec fn from_spec(kv: (K, V)) -> Pair<K, V> {
        Pair { key: kv.0, value: kv.1 }
    }
}

impl Pair<String, String> {
    /// Reads a `KEY=value` argument, split at its first `=`.
    pub fn parse(s: &str) -> (r: Result<Pair<String, String>, KeyValError>)
        ensures
            match r {
                Ok(p) => p.key@ + seq!['='] + p.value@ == s@ && !p.key@.contains('='),
                Err(e) => !s@.contains('=') && e.input@ == s@,
            },
    {
        match key_val(s) {
            Ok(kv) => Ok(Pair::from(kv)),
            Err(e) => Err(e),
        }
    }
}

impl core::str::FromStr for Pair<String, String> {
    type Err = KeyValError;

    fn from_str(s: &str) -> Result<Pair<String, String>, KeyValError> {
        Pair::parse(s)
    }
}

/// A `KEY=value` argument splits into a key holding no `=` and a value, and
/// the two joined by `=` give the argument back.
pub proof fn lemma_key_val_unique(s: Seq<char>, k1: Seq<char>, v1: Seq<char>, k2: Seq<char>, v2: Seq<char>)
    requires
        k1 + seq!['='] + v1 == s,
        !k1.contains('='),
        k2 + seq!['='] + v2 == s,
        !k2.contains('='),
    ensures
        k1 == k2,
        v1 == v2,
{
    if k1.len() < k2.len() {
        assert(s[k1.len() as int] == '=');
        assert(k2[k1.len() as int] == s[k1.len() as int]);
    } else if k2.len() < k1.len() {
        assert(s[k2.len() as int] == '=');
        assert(k1[k2.len() as int] == s[k2.len() as int]);
    }
    assert(k1 =~= s.take(k1.len() as int));
    assert(k2 =~= s.take(k2.len() as int));
    assert(v1 =~= s.skip(k1.len() as int + 1));
    assert(v2 =~= s.skip(k2.len() as int + 1));
}

} // verus!
