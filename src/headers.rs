use vstd::prelude::*;

use crate::method::RequestError;
use crate::response::{content_type_value, ContentType};
use crate::resolve::pairs_view;
use crate::text::{chars_of, string_of};

verus! {

/// A character allowed in an HTTP field name (a `tchar` of RFC 9110).
pub open spec fn is_token_char(c: char) -> bool {
    ||| 'a' <= c <= 'z'
    ||| 'A' <= c <= 'Z'
    ||| '0' <= c <= '9'
    ||| c == '!' || c == '#' || c == '$' || c == '%' || c == '&' || c == '\''
    ||| c == '*' || c == '+' || c == '-' || c == '.' || c == '^' || c == '_'
    ||| c == '`' || c == '|' || c == '~'
}

/// A character with an ASCII upper-case letter made lower-case.
pub open spec fn lower_char(c: char) -> char {
    if 'A' <= c <= 'Z' {
        (((c as u32) + 32) as u8) as char
    } else {
        c
    }
}

/// The longest field name accepted.
pub const MAX_HEADER_NAME_LEN: usize = 65535;

/// A field name in its normal (lower-case) form; `None` when it is empty, too
/// long, or holds a character that is not a token character.
pub open spec fn header_name_of(s: Seq<char>) -> Option<Seq<char>> {
    if 1 <= s.len() <= MAX_HEADER_NAME_LEN && forall|i: int|
        0 <= i < s.len() ==> #[trigger] is_token_char(s[i]) {
        Some(s.map_values(|c: char| lower_char(c)))
    } else {
        None
    }
}

/// A field value: no control character but the horizontal tab.
pub open spec fn is_header_value(s: Seq<char>) -> bool {
    forall|i: int| 0 <= i < s.len() ==> #[trigger] s[i] == '\t' || (' ' <= s[i] && s[i] != '\x7f')
}

/// `(k, v)` in place of the first entry named `k`, or appended when there is none.
pub open spec fn upsert(
    s: Seq<(Seq<char>, Seq<char>)>,
    k: Seq<char>,
    v: Seq<char>,
) -> Seq<(Seq<char>, Seq<char>)>
    decreases s.len(),
{
    if s.len() == 0 {
        seq![(k, v)]
    } else if s[0].0 == k {
        seq![(k, v)] + s.drop_first()
    } else {
        seq![s[0]] + upsert(s.drop_first(), k, v)
    }
}

/// The entries after setting `name` to `value`; `None` when either is not valid.
pub open spec fn set_spec(
    s: Seq<(Seq<char>, Seq<char>)>,
    name: Seq<char>,
    value: Seq<char>,
) -> Option<Seq<(Seq<char>, Seq<char>)>> {
    match header_name_of(name) {
        Some(n) => if is_header_value(value) {
            Some(upsert(s, n, value))
        } else {
            None
        },
        None => None,
    }
}

/// The entries after setting each of `extra` in turn; `None` at the first invalid one.
pub open spec fn merge_spec(
    s: Seq<(Seq<char>, Seq<char>)>,
    extra: Seq<(Seq<char>, Seq<char>)>,
) -> Option<Seq<(Seq<char>, Seq<char>)>>
    decreases extra.len(),
{
    if extra.len() == 0 {
        Some(s)
    } else {
        match set_spec(s, extra[0].0, extra[0].1) {
            Some(s2) => merge_spec(s2, extra.drop_first()),
            None => None,
        }
    }
}

proof fn lemma_upsert_at(s: Seq<(Seq<char>, Seq<char>)>, k: Seq<char>, v: Seq<char>, i: int)
    requires
        0 <= i <= s.len(),
        forall|j: int| 0 <= j < i ==> s[j].0 != k,
        i < s.len() ==> s[i].0 == k,
    ensures
        upsert(s, k, v) == if i < s.len() {
            s.update(i, (k, v))
        } else {
            s.push((k, v))
        },
    decreases s.len(),
{
    if s.len() == 0 {
        assert(s.push((k, v)) =~= seq![(k, v)]);
    } else if i == 0 {
        assert(seq![(k, v)] + s.drop_first() =~= s.update(0, (k, v)));
    } else {
        let t = s.drop_first();
        lemma_upsert_at(t, k, v, i - 1);
        if i < s.len() {
            assert(seq![s[0]] + t.update(i - 1, (k, v)) =~= s.update(i, (k, v)));
        } else {
            assert(seq![s[0]] + t.push((k, v)) =~= s.push((k, v)));
        }
    }
}

fn is_token_char_exec(c: char) -> (r: bool)
    ensures
        r == is_token_char(c),
{
    ('a' <= c && c <= 'z') || ('A' <= c && c <= 'Z') || ('0' <= c && c <= '9') || c == '!' || c
        == '#' || c == '$' || c == '%' || c == '&' || c == '\'' || c == '*' || c == '+' || c == '-'
        || c == '.' || c == '^' || c == '_' || c == '`' || c == '|' || c == '~'
}

fn lower_char_exec(c: char) -> (r: char)
    ensures
        r == lower_char(c),
{
    if 'A' <= c && c <= 'Z' {
        let b: u8 = ((c as u32) + 32) as u8;
        b as char
    } else {
        c
    }
}

/// The normal form of a field name, or `None` when it is not a valid name.
pub fn header_name(name: &str) -> (r: Option<String>)
    ensures
        match r {
            Some(n) => header_name_of(name@) == Some(n@),
            None => header_name_of(name@) is None,
        },
{
    let cs = chars_of(name);
    if cs.len() < 1 || cs.len() > MAX_HEADER_NAME_LEN {
        return None;
    }
    let mut out: Vec<char> = Vec::new();
    let mut i: usize = 0;
    while i < cs.len()
        invariant
            i <= cs.len(),
            cs@ == name@,
            forall|j: int| 0 <= j < i ==> #[trigger] is_token_char(cs@[j]),
            out@ == cs@.subrange(0, i as int).map_values(|c: char| lower_char(c)),
        decreases cs.len() - i,
    {
        if !is_token_char_exec(cs[i]) {
            return None;
        }
        out.push(lower_char_exec(cs[i]));
        i = i + 1;
        assert(out@ =~= cs@.subrange(0, i as int).map_values(|c: char| lower_char(c)));
    }
    assert(cs@.subrange(0, i as int) =~= cs@);
    Some(string_of(&out))
}

/// Whether a string may stand as a field value.
pub fn is_valid_header_value(value: &str) -> (r: bool)
    ensures
        r == is_header_value(value@),
{
    let cs = chars_of(value);
    let mut i: usize = 0;
    while i < cs.len()
        invariant
            i <= cs.len(),
            cs@ == value@,
            forall|j: int|
                0 <= j < i ==> #[trigger] cs@[j] == '\t' || (' ' <= cs@[j] && cs@[j] != '\x7f'),
        decreases cs.len() - i,
    {
        let c = cs[i];
        if !(c == '\t' || (' ' <= c && c != '\x7f')) {
            return false;
        }
        i = i + 1;
    }
    true
}

/// No name appears in two entries.
pub open spec fn unique_names(s: Seq<(Seq<char>, Seq<char>)>) -> bool {
    forall|i: int, j: int| 0 <= i < j < s.len() ==> s[i].0 != s[j].0
}

/// The header fields of a client or of one request: names in normal form, each
/// name at most once, in the order they were first set.
pub struct HeaderStore {
    entries: Vec<(String, String)>,
}

impl HeaderStore {
    #[verifier::type_invariant]
    spec fn names_unique(&self) -> bool {
        unique_names(pairs_view(self.entries@))
    }

    /// The (name, value) entries, in order.
    pub closed spec fn view(&self) -> Seq<(Seq<char>, Seq<char>)> {
        pairs_view(self.entries@)
    }

    /// A store with no field.
    pub fn new() -> (r: Self)
        ensures
            r.view() == Seq::<(Seq<char>, Seq<char>)>::empty(),
    {
        let r = HeaderStore { entries: Vec::new() };
        assert(r.view() =~= Seq::<(Seq<char>, Seq<char>)>::empty());
        r
    }

    /// The entries, in order.
    pub fn entries(&self) -> (r: &Vec<(String, String)>)
        ensures
            pairs_view(r@) == self.view(),
            unique_names(self.view()),
    {
        proof {
            use_type_invariant(self);
        }
        &self.entries
    }

    /// A store with the same entries.
    pub fn copy(&self) -> (r: Self)
        ensures
            r.view() == self.view(),
    {
        proof {
            use_type_invariant(self);
        }
        let mut entries: Vec<(String, String)> = Vec::new();
        let mut i: usize = 0;
        while i < self.entries.len()
            invariant
                i <= self.entries.len(),
                entries@ == self.entries@.subrange(0, i as int),
            decreases self.entries.len() - i,
        {
            let name = self.entries[i].0.clone();
            let value = self.entries[i].1.clone();
            entries.push((name, value));
            i = i + 1;
            assert(entries@ =~= self.entries@.subrange(0, i as int));
        }
        assert(self.entries@.subrange(0, i as int) =~= self.entries@);
        HeaderStore { entries }
    }

    /// Sets a field whose name is already in normal form, in place of the entry of
    /// that name if there is one.
    pub(crate) fn put(&mut self, name: String, value: String)
        ensures
            final(self).view() == upsert(old(self).view(), name@, value@),
    {
        proof {
            use_type_invariant(&*self);
        }
        let ghost s = self.view();
        let mut entries = self.to_vec();
        let mut i: usize = 0;
        while i < entries.len() && entries[i].0 != name
            invariant
                i <= entries.len(),
                s == pairs_view(entries@),
                forall|j: int| 0 <= j < i ==> s[j].0 != name@,
            decreases entries.len() - i,
        {
            i = i + 1;
        }
        proof {
            lemma_upsert_at(s, name@, value@, i as int);
        }
        if i < entries.len() {
            let ghost prev = entries@;
            entries.set(i, (name, value));
            assert(entries@ == prev.update(i as int, (name, value)));
            assert(pairs_view(entries@) =~= s.update(i as int, (name@, value@)));
        } else {
            let ghost prev = entries@;
            entries.push((name, value));
            assert(entries@ == prev.push((name, value)));
            assert(pairs_view(entries@) =~= s.push((name@, value@)));
        }
        assert(unique_names(pairs_view(entries@)));
        self.entries = entries;
    }

    /// Sets a field, replacing an earlier value of the same name (names are compared
    /// in normal form). Refuses an invalid name or value and leaves the store as it was.
    pub fn set_header(&mut self, name: &str, value: &str) -> (r: Result<(), RequestError>)
        ensures
            match set_spec(old(self).view(), name@, value@) {
                Some(s) => r is Ok && final(self).view() == s,
                None => (r matches Err(RequestError::InvalidHeader(n)) && n@ == name@)
                    && final(self).view() == old(self).view(),
            },
    {
        match header_name(name) {
            Some(n) => {
                if is_valid_header_value(value) {
                    self.put(n, value.to_owned());
                    Ok(())
                } else {
                    Err(RequestError::InvalidHeader(name.to_owned()))
                }
            },
            None => Err(RequestError::InvalidHeader(name.to_owned())),
        }
    }

    /// The entries as a new list.
    pub fn to_vec(&self) -> (r: Vec<(String, String)>)
        ensures
            pairs_view(r@) == self.view(),
    {
        self.copy().entries
    }

    /// Sets the `Content-Type` field announcing the body's encoding.
    pub fn set_content_type(&mut self, ct: ContentType)
        ensures
            final(self).view() == upsert(old(self).view(), "content-type"@, content_type_value(ct)),
    {
        let name = String::from_str("content-type");
        let value = String::from_str(ct.mime());
        self.put(name, value);
    }

    /// This store with each of `extra` set in turn; refuses the first invalid one.
    pub fn merged(&self, extra: &Vec<(String, String)>) -> (r: Result<HeaderStore, RequestError>)
        ensures
            match merge_spec(self.view(), pairs_view(extra@)) {
                Some(s) => r matches Ok(h) && h.view() == s,
                None => r matches Err(RequestError::InvalidHeader(_)),
            },
    {
        let ghost ex = pairs_view(extra@);
        let mut out = self.copy();
        let mut i: usize = 0;
        assert(ex.subrange(0, ex.len() as int) =~= ex);
        while i < extra.len()
            invariant
                i <= extra.len(),
                ex == pairs_view(extra@),
                merge_spec(self.view(), ex) == merge_spec(
                    out.view(),
                    ex.subrange(i as int, ex.len() as int),
                ),
            decreases extra.len() - i,
        {
            let ghost tail = ex.subrange(i as int, ex.len() as int);
            assert(tail.drop_first() =~= ex.subrange(i + 1, ex.len() as int));
            let res = out.set_header(extra[i].0.as_str(), extra[i].1.as_str());
            if res.is_err() {
                return Err(RequestError::InvalidHeader(extra[i].0.clone()));
            }
            i = i + 1;
        }
        assert(ex.subrange(i as int, ex.len() as int) =~= Seq::<(Seq<char>, Seq<char>)>::empty());
        Ok(out)
    }
}

} // verus!
