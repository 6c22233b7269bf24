use vstd::prelude::*;

use crate::text::{chars_of, contains, contains_chars, replace_all, replace_chars, string_of};

verus! {

/// The view of a list of (name, value) parameters.
pub open spec fn pairs_view(v: Seq<(String, String)>) -> Seq<(Seq<char>, Seq<char>)> {
    v.map_values(|p: (String, String)| (p.0@, p.1@))
}

/// The placeholder `{name}` that stands for a parameter in a URL template.
pub open spec fn placeholder(name: Seq<char>) -> Seq<char> {
    seq!['{'] + name + seq!['}']
}

/// Resolving from `url` with the parameters `ps` taken in order: a parameter whose
/// placeholder occurs in the template `t` has every occurrence of it in the URL
/// replaced by its value; one whose placeholder does not occur in the template is
/// kept, in order, for the query string.
pub open spec fn resolve_in(
    t: Seq<char>,
    url: Seq<char>,
    ps: Seq<(Seq<char>, Seq<char>)>,
) -> (Seq<char>, Seq<(Seq<char>, Seq<char>)>)
    decreases ps.len(),
{
    if ps.len() == 0 {
        (url, Seq::empty())
    } else {
        let ph = placeholder(ps[0].0);
        if contains(t, ph) {
            resolve_in(t, replace_all(url, ph, ps[0].1), ps.drop_first())
        } else {
            let (u, rest) = resolve_in(t, url, ps.drop_first());
            (u, seq![ps[0]] + rest)
        }
    }
}

/// A template resolved against parameters: the resolved URL and the parameters left
/// for the query string.
pub open spec fn resolve(
    t: Seq<char>,
    ps: Seq<(Seq<char>, Seq<char>)>,
) -> (Seq<char>, Seq<(Seq<char>, Seq<char>)>) {
    resolve_in(t, t, ps)
}

/// The placeholder of a parameter occurs in the template.
pub open spec fn matched(t: Seq<char>, p: (Seq<char>, Seq<char>)) -> bool {
    contains(t, placeholder(p.0))
}

/// The URL reached once the first `j` parameters have been taken.
pub open spec fn url_after(t: Seq<char>, ps: Seq<(Seq<char>, Seq<char>)>, j: int) -> Seq<char> {
    resolve(t, ps.subrange(0, j)).0
}

proof fn lemma_resolve_push(
    t: Seq<char>,
    u: Seq<char>,
    ps: Seq<(Seq<char>, Seq<char>)>,
    x: (Seq<char>, Seq<char>),
)
    ensures
        ({
            let (v, rest) = resolve_in(t, u, ps);
            let ph = placeholder(x.0);
            resolve_in(t, u, ps.push(x)) == if contains(t, ph) {
                (replace_all(v, ph, x.1), rest)
            } else {
                (v, rest.push(x))
            }
        }),
    decreases ps.len(),
{
    if ps.len() == 0 {
        reveal_with_fuel(resolve_in, 2);
        assert(ps.push(x) =~= seq![x]);
        assert(ps.push(x).drop_first() =~= Seq::<(Seq<char>, Seq<char>)>::empty());
        assert(seq![x] + Seq::<(Seq<char>, Seq<char>)>::empty() =~= Seq::<
            (Seq<char>, Seq<char>),
        >::empty().push(x));
    } else {
        assert(ps.push(x).drop_first() =~= ps.drop_first().push(x));
        assert(ps.push(x)[0] == ps[0]);
        let ph0 = placeholder(ps[0].0);
        if contains(t, ph0) {
            lemma_resolve_push(t, replace_all(u, ph0, ps[0].1), ps.drop_first(), x);
        } else {
            lemma_resolve_push(t, u, ps.drop_first(), x);
            let rest = resolve_in(t, u, ps.drop_first()).1;
            assert(seq![ps[0]] + rest.push(x) =~= (seq![ps[0]] + rest).push(x));
        }
    }
}

proof fn lemma_kept_filter(t: Seq<char>, ps: Seq<(Seq<char>, Seq<char>)>)
    ensures
        resolve(t, ps).1 == ps.filter(|p: (Seq<char>, Seq<char>)| !matched(t, p)),
        forall|x: (Seq<char>, Seq<char>)|
            #[trigger] resolve(t, ps).1.contains(x) <==> ps.contains(x) && !matched(t, x),
    decreases ps.len(),
{
    reveal(Seq::filter);
    if ps.len() == 0 {
    } else {
        let init = ps.drop_last();
        let y = ps.last();
        lemma_kept_filter(t, init);
        assert(init.push(y) =~= ps);
        lemma_resolve_push(t, t, init, y);
        let prev = resolve(t, init).1;
        let now = resolve(t, ps).1;
        assert forall|x: (Seq<char>, Seq<char>)|
            #[trigger] now.contains(x) <==> ps.contains(x) && !matched(t, x) by {
            if now.contains(x) {
                let k = choose|k: int| 0 <= k < now.len() && now[k] == x;
                if k < prev.len() {
                    assert(prev[k] == x);
                    assert(prev.contains(x));
                    let i = choose|i: int| 0 <= i < init.len() && init[i] == x;
                    assert(ps[i] == x);
                } else {
                    assert(ps[ps.len() - 1] == x);
                }
            }
            if ps.contains(x) && !matched(t, x) {
                let i = choose|i: int| 0 <= i < ps.len() && ps[i] == x;
                if i < ps.len() - 1 {
                    assert(init[i] == x);
                    assert(prev.contains(x));
                    let k = choose|k: int| 0 <= k < prev.len() && prev[k] == x;
                    assert(now[k] == x);
                } else {
                    assert(now[now.len() - 1] == x);
                }
            }
        }
    }
}

/// Resolving a URL template: the URL starts as the template, and each parameter in
/// turn has every occurrence of its placeholder `{name}` in the URL replaced by its
/// value when that placeholder occurs in the template, and leaves the URL unchanged
/// otherwise. The parameters kept for the query string are exactly those whose
/// placeholder does not occur in the template, values unchanged and in order; with
/// no parameters the template is returned unchanged.
pub proof fn lemma_resolve_law(t: Seq<char>, ps: Seq<(Seq<char>, Seq<char>)>)
    ensures
        url_after(t, ps, 0) == t,
        resolve(t, ps).0 == url_after(t, ps, ps.len() as int),
        forall|j: int|
            0 <= j < ps.len() ==> #[trigger] url_after(t, ps, j + 1) == if matched(t, ps[j]) {
                replace_all(url_after(t, ps, j), placeholder(ps[j].0), ps[j].1)
            } else {
                url_after(t, ps, j)
            },
        resolve(t, ps).1 == ps.filter(|p: (Seq<char>, Seq<char>)| !matched(t, p)),
        forall|x: (Seq<char>, Seq<char>)|
            #[trigger] resolve(t, ps).1.contains(x) <==> ps.contains(x) && !matched(t, x),
        resolve(t, Seq::empty()) == (t, Seq::<(Seq<char>, Seq<char>)>::empty()),
{
    assert(ps.subrange(0, 0) =~= Seq::<(Seq<char>, Seq<char>)>::empty());
    assert(ps.subrange(0, ps.len() as int) =~= ps);
    assert forall|j: int| 0 <= j < ps.len() implies #[trigger] url_after(t, ps, j + 1) == if matched(
        t,
        ps[j],
    ) {
        replace_all(url_after(t, ps, j), placeholder(ps[j].0), ps[j].1)
    } else {
        url_after(t, ps, j)
    } by {
        assert(ps.subrange(0, j + 1) =~= ps.subrange(0, j).push(ps[j]));
        lemma_resolve_push(t, t, ps.subrange(0, j), ps[j]);
    }
    lemma_kept_filter(t, ps);
}

fn placeholder_of(name: &String) -> (r: Vec<char>)
    ensures
        r@ == placeholder(name@),
{
    let inner = chars_of(name.as_str());
    let mut r: Vec<char> = vec!['{'];
    let mut i: usize = 0;
    while i < inner.len()
        invariant
            i <= inner.len(),
            r@ == seq!['{'] + inner@.subrange(0, i as int),
        decreases inner.len() - i,
    {
        r.push(inner[i]);
        i = i + 1;
        assert(r@ =~= seq!['{'] + inner@.subrange(0, i as int));
    }
    r.push('}');
    assert(r@ =~= placeholder(name@));
    r
}

/// Substitutes the parameters whose placeholder `{name}` occurs in the template and
/// returns the resolved URL with the parameters left over for the query string.
pub fn resolve_path_params(template: &str, params: &Vec<(String, String)>) -> (r: (
    String,
    Vec<(String, String)>,
))
    ensures
        (r.0@, pairs_view(r.1@)) == resolve(template@, pairs_view(params@)),
{
    let ghost all = pairs_view(params@);
    let tmpl = chars_of(template);
    let mut cur = chars_of(template);
    let mut kept: Vec<(String, String)> = Vec::new();
    let mut i: usize = 0;
    assert(all.subrange(0, all.len() as int) =~= all);
    while i < params.len()
        invariant
            i <= params.len(),
            all == pairs_view(params@),
            tmpl@ == template@,
            ({
                let (u, rest) = resolve_in(template@, cur@, all.subrange(i as int, all.len() as int));
                resolve(template@, all) == (u, pairs_view(kept@) + rest)
            }),
        decreases params.len() - i,
    {
        let ghost tail = all.subrange(i as int, all.len() as int);
        assert(tail.drop_first() =~= all.subrange(i + 1, all.len() as int));
        assert(tail[0] == (params@[i as int].0@, params@[i as int].1@));
        let ph = placeholder_of(&params[i].0);
        if contains_chars(&tmpl, &ph) {
            let v = chars_of(params[i].1.as_str());
            cur = replace_chars(&cur, &ph, &v);
        } else {
            let ghost before = kept@;
            let name = params[i].0.clone();
            let value = params[i].1.clone();
            kept.push((name, value));
            proof {
                let rest = resolve_in(template@, cur@, tail.drop_first()).1;
                assert(pairs_view(kept@) =~= pairs_view(before).push(tail[0]));
                assert(pairs_view(before) + (seq![tail[0]] + rest) =~= pairs_view(kept@) + rest);
            }
        }
        i = i + 1;
    }
    assert(all.subrange(i as int, all.len() as int) =~= Seq::<(Seq<char>, Seq<char>)>::empty());
    assert(pairs_view(kept@) + Seq::<(Seq<char>, Seq<char>)>::empty() =~= pairs_view(kept@));
    (string_of(&cur), kept)
}

} // verus!
