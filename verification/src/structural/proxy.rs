//! Proxy: a caching stand-in for a user repository. The cache stores plain
//! text, so users are written with a small verified encoding — the age in
//! decimal, a bar, then the name — proved to read back exactly.

use vstd::prelude::*;
use vstd::string::StringExecFns;
use vstd::string::StrSliceExecFns;
use crate::decimal::all_digits;
use crate::decimal::dec_digits;
use crate::decimal::digits_val;
use crate::decimal::is_digit;
use crate::decimal::lemma_dec_digits_valid;
use crate::decimal::parse_u16;
use crate::decimal::u64_to_string;
use crate::lookup::assoc_lookup;
use crate::lookup::find_last;
use crate::lookup::lemma_assoc_lookup_push;
use crate::structural::decorator::User;
use crate::structural::decorator::UserRepository;
use crate::structural::decorator::found_user;

verus! {

/// A plain text store: the newest value set under a key wins.
pub struct Cache {
    memory_cache: Vec<(String, String)>,
}

impl View for Cache {
    type V = Seq<(String, String)>;

    closed spec fn view(&self) -> Seq<(String, String)> {
        self.memory_cache@
    }
}

impl Cache {
    pub fn new() -> (r: Cache)
        ensures
            r@ == Seq::<(String, String)>::empty(),
    {
        Cache { memory_cache: Vec::new() }
    }

    /// The value most recently set under the name, if any.
    pub fn get(&self, name: String) -> (r: Option<String>)
        ensures
            r is Some <==> assoc_lookup(self@, name@) is Some,
            r matches Some(v) ==> assoc_lookup(self@, name@) matches Some(c) && v@ == c@,
    {
        match find_last(&self.memory_cache, &name) {
            Some(i) => Some(self.memory_cache[i].1.clone()),
            None => None,
        }
    }

    /// Sets a value: afterwards the key reads it, every other key as before.
    pub fn set(&mut self, key: String, value: String)
        ensures
            final(self)@ == old(self)@.push((key, value)),
            assoc_lookup(final(self)@, key@) == Some(value),
            forall|k2: Seq<char>| k2 != key@ ==> #[trigger] assoc_lookup(final(self)@, k2)
                == assoc_lookup(old(self)@, k2),
    {
        proof {
            assert forall|k2: Seq<char>| k2 != key@ implies #[trigger] assoc_lookup(
                old(self)@.push((key, value)),
                k2,
            ) == assoc_lookup(old(self)@, k2) by {
                lemma_assoc_lookup_push(old(self)@, (key, value), k2);
            }
            lemma_assoc_lookup_push(old(self)@, (key, value), key@);
        }
        self.memory_cache.push((key, value));
    }
}

/// The cached text for a user: the age in decimal, a bar, then the name.
pub open spec fn user_code(name: Seq<char>, age: u16) -> Seq<char> {
    dec_digits(age as nat) + seq!['|'] + name
}

/// Index of the first bar in `s`; `s.len()` if there is none.
pub open spec fn first_bar(s: Seq<char>) -> int
    decreases s.len(),
{
    if s.len() == 0 {
        0
    } else if s[0] == '|' {
        0
    } else {
        1 + first_bar(s.drop_first())
    }
}

/// What a cached text decodes to: everything before the first bar must be
/// a decimal age that fits, and everything after it is the name.
pub open spec fn decoded_user(s: Seq<char>) -> Option<(Seq<char>, u16)> {
    let k = first_bar(s);
    if k == s.len() {
        None
    } else {
        let head = s.take(k);
        if head.len() > 0 && all_digits(head) && digits_val(head) <= u16::MAX {
            Some((s.skip(k + 1), digits_val(head) as u16))
        } else {
            None
        }
    }
}

/// If the first bar of `s` stands at `k`, `first_bar` returns `k`.
proof fn lemma_first_bar_at(s: Seq<char>, k: int)
    requires
        0 <= k < s.len(),
        s[k] == '|',
        forall|j: int| 0 <= j < k ==> s[j] != '|',
    ensures
        first_bar(s) == k,
    decreases s.len(),
{
    if k > 0 {
        let t = s.drop_first();
        assert(forall|j: int| 0 <= j < s.len() - 1 ==> t[j] == s[j + 1]);
        lemma_first_bar_at(t, k - 1);
    }
}

/// If `s` has no bar at all, `first_bar` runs off the end.
proof fn lemma_first_bar_none(s: Seq<char>)
    requires
        forall|j: int| 0 <= j < s.len() ==> s[j] != '|',
    ensures
        first_bar(s) == s.len(),
    decreases s.len(),
{
    if s.len() > 0 {
        let t = s.drop_first();
        assert(forall|j: int| 0 <= j < s.len() - 1 ==> t[j] == s[j + 1]);
        lemma_first_bar_none(t);
    }
}

/// Writes a user in the cached text form.
pub fn encode_user(u: &User) -> (r: String)
    ensures
        r@ == user_code(u.name@, u.age),
{
    let r = u64_to_string(u.age as u64).concat("|").concat(u.name.as_str());
    proof {
        reveal_strlit("|");
        assert(r@ =~= user_code(u.name@, u.age));
    }
    r
}

/// Reads a cached text back into a user: defined exactly where the text
/// has the encoded form.
pub fn decode_user(s: &str) -> (r: Option<User>)
    ensures
        found_user(r) == decoded_user(s@),
{
    let n = s.unicode_len();
    let mut k_opt: Option<usize> = None;
    let mut i: usize = 0;
    while i < n
        invariant
            n == s@.len(),
            i <= n,
            match k_opt {
                Some(k) => k < i && s@[k as int] == '|' && forall|j: int|
                    0 <= j < k ==> s@[j] != '|',
                None => forall|j: int| 0 <= j < i ==> s@[j] != '|',
            },
        decreases n - i,
    {
        if k_opt.is_none() && s.get_char(i) == '|' {
            k_opt = Some(i);
        }
        i = i + 1;
    }
    let k = match k_opt {
        Some(k) => k,
        None => {
            proof {
                lemma_first_bar_none(s@);
            }
            return None;
        },
    };
    proof {
        lemma_first_bar_at(s@, k as int);
    }
    let head = s.substring_char(0, k);
    let name_part = s.substring_char(k + 1, n);
    proof {
        assert(head@ =~= s@.take(k as int));
        assert(name_part@ =~= s@.skip(k + 1));
    }
    match parse_u16(head) {
        Some(age) => Some(User { name: String::from_str(name_part), age }),
        None => None,
    }
}

/// Round-trip law: decoding an encoded user gives back exactly its name
/// and age, whatever characters the name holds.
pub proof fn lemma_decode_encode(name: Seq<char>, age: u16)
    ensures
        decoded_user(user_code(name, age)) == Some((name, age)),
{
    let digits = dec_digits(age as nat);
    let s = user_code(name, age);
    lemma_dec_digits_valid(age as nat);
    assert(s[digits.len() as int] == '|');
    assert forall|j: int| 0 <= j < digits.len() implies s[j] != '|' by {
        assert(s[j] == digits[j]);
        assert(is_digit(digits[j]));
    }
    lemma_first_bar_at(s, digits.len() as int);
    assert(s.take(digits.len() as int) =~= digits);
    assert(s.skip(digits.len() as int + 1) =~= name);
}

/// Wraps a repository with the text cache: a hit answers from the cache
/// alone; a miss asks the repository and caches what it found.
pub struct UserRepositoryWithCache<R> {
    pub cache: Cache,
    pub repo: R,
}

/// What the cache knows about a name: the user decoded from the newest
/// text set under the name's key, if that text decodes at all.
pub open spec fn cached_user(c: Seq<(String, String)>, key: Seq<char>) -> Option<(Seq<char>, u16)> {
    match assoc_lookup(c, key) {
        Some(v) => decoded_user(v@),
        None => None,
    }
}

impl<R: UserRepository> UserRepository for UserRepositoryWithCache<R> {
    open spec fn find_req(&self, name: Seq<char>) -> bool {
        self.repo.find_req(name)
    }

    open spec fn find_post(pre: Self, post: Self, name: Seq<char>, r: Option<(Seq<char>, u16)>) -> bool {
        let key = "user:"@ + name;
        if cached_user(pre.cache@, key) is Some {
            r == cached_user(pre.cache@, key) && post == pre
        } else {
            &&& R::find_post(pre.repo, post.repo, name, r)
            &&& (r matches Some(u) ==> cached_user(post.cache@, key) == Some(u))
            &&& (r is None ==> post.cache == pre.cache)
            &&& forall|k2: Seq<char>| k2 != key ==> #[trigger] assoc_lookup(post.cache@, k2)
                == assoc_lookup(pre.cache@, k2)
        }
    }

    fn find_user(&mut self, name: String) -> (r: Option<User>) {
        let key = String::from_str("user:").concat(name.as_str());
        let from_cache = self.cache.get(key.clone());
        if from_cache.is_some() {
            let cached = from_cache.unwrap();
            match decode_user(cached.as_str()) {
                Some(u) => {
                    return Some(u);
                },
                None => {},
            }
        }
        let from_db = self.repo.find_user(name);
        match &from_db {
            Some(u) => {
                let text = encode_user(u);
                proof {
                    lemma_decode_encode(u.name@, u.age);
                }
                self.cache.set(key, text);
            },
            None => {},
        }
        from_db
    }
}

} // verus!
