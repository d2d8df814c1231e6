//! The extension string: the names of the extensions that a screen offers, one
//! space between each two.

use vstd::prelude::*;

verus! {

/// How many characters stand before the first space of `s`, or in `s` if it has none.
pub open spec fn name_len(s: Seq<char>) -> nat
    decreases s.len(),
{
    if s.len() == 0 || s[0] == ' ' {
        0
    } else {
        1 + name_len(s.drop_first())
    }
}

/// The pieces of `s` between its spaces, in order: one more than there are spaces,
/// and empty wherever two spaces meet or one stands at an end.
pub open spec fn names(s: Seq<char>) -> Seq<Seq<char>>
    decreases s.len(),
{
    if name_len(s) >= s.len() {
        seq![s]
    } else {
        seq![s.take(name_len(s) as int)] + names(s.skip(name_len(s) as int + 1))
    }
}

/// Whether `name` is one of the names in the extension string `extensions`.
pub open spec fn has_extension(extensions: Seq<char>, name: Seq<char>) -> bool {
    names(extensions).contains(name)
}

/// Whether `name` stands in `extensions` at character `at`, free of spaces, with a
/// space or an end of the string on either side.
pub open spec fn stands_at(extensions: Seq<char>, name: Seq<char>, at: int) -> bool {
    &&& 0 <= at && at + name.len() <= extensions.len()
    &&& extensions.subrange(at, at + name.len()) == name
    &&& !name.contains(' ')
    &&& at == 0 || extensions[at - 1] == ' '
    &&& at + name.len() == extensions.len() || extensions[at + name.len()] == ' '
}

proof fn lemma_name_len(s: Seq<char>)
    ensures
        name_len(s) <= s.len(),
        forall|i: int| 0 <= i < name_len(s) ==> s[i] != ' ',
        name_len(s) < s.len() ==> s[name_len(s) as int] == ' ',
    decreases s.len(),
{
    if s.len() != 0 && s[0] != ' ' {
        let rest = s.drop_first();
        lemma_name_len(rest);
        assert forall|i: int| 0 <= i < name_len(s) implies s[i] != ' ' by {
            if i > 0 {
                assert(s[i] == rest[i - 1]);
            }
        }
    }
}

proof fn lemma_name_len_at(s: Seq<char>, n: int)
    requires
        0 <= n <= s.len(),
        forall|i: int| 0 <= i < n ==> s[i] != ' ',
        n < s.len() ==> s[n] == ' ',
    ensures
        name_len(s) == n,
{
    lemma_name_len(s);
}

/// The names of a string whose first space is at `n` are what stands before it and
/// the names of what stands behind it.
proof fn lemma_names_cons(s: Seq<char>, n: int)
    requires
        0 <= n < s.len(),
        forall|i: int| 0 <= i < n ==> s[i] != ' ',
        s[n] == ' ',
    ensures
        names(s) == seq![s.take(n)] + names(s.skip(n + 1)),
{
    lemma_name_len_at(s, n);
}

/// A string is found among the names exactly when it is the first of them or found
/// among the rest.
proof fn lemma_has_cons(s: Seq<char>, n: int, name: Seq<char>)
    requires
        0 <= n < s.len(),
        forall|i: int| 0 <= i < n ==> s[i] != ' ',
        s[n] == ' ',
    ensures
        has_extension(s, name) <==> (s.take(n) == name || has_extension(s.skip(n + 1), name)),
{
    lemma_names_cons(s, n);
    let rest = names(s.skip(n + 1));
    let all = seq![s.take(n)] + rest;
    assert(all[0] == s.take(n));
    if rest.contains(name) {
        let i = choose|i: int| 0 <= i < rest.len() && rest[i] == name;
        assert(all[i + 1] == name);
    }
    if all.contains(name) {
        let i = choose|i: int| 0 <= i < all.len() && all[i] == name;
        if i > 0 {
            assert(rest[i - 1] == name);
        }
    }
}

/// A string without a space has one name: itself.
proof fn lemma_has_last(s: Seq<char>, name: Seq<char>)
    requires
        forall|i: int| 0 <= i < s.len() ==> s[i] != ' ',
    ensures
        has_extension(s, name) <==> s == name,
{
    lemma_name_len_at(s, s.len() as int);
    assert(names(s)[0] == s);
}

/// A name is among the names of an extension string exactly when it stands
/// somewhere in it between spaces or the ends. So a name that is only a part of a
/// longer one is not found, nor one that holds a space.
pub proof fn law_name_stands_between_spaces(extensions: Seq<char>, name: Seq<char>)
    ensures
        has_extension(extensions, name) <==> exists|at: int| stands_at(extensions, name, at),
    decreases extensions.len(),
{
    lemma_name_len(extensions);
    let n = name_len(extensions) as int;
    if n == extensions.len() {
        lemma_has_last(extensions, name);
        if extensions == name {
            assert(extensions.subrange(0, name.len() as int) =~= name);
            assert(stands_at(extensions, name, 0));
        }
        assert forall|at: int| stands_at(extensions, name, at) implies extensions == name by {
            assert(at == 0);
            assert(extensions.subrange(0, name.len() as int) =~= extensions);
        }
    } else {
        let rest = extensions.skip(n + 1);
        lemma_has_cons(extensions, n, name);
        law_name_stands_between_spaces(rest, name);
        if extensions.take(n) == name {
            assert(extensions.subrange(0, name.len() as int) =~= name);
            assert(!name.contains(' '));
            assert(stands_at(extensions, name, 0));
        }
        assert forall|at: int| stands_at(rest, name, at) implies stands_at(
            extensions,
            name,
            at + n + 1,
        ) by {
            assert(extensions.subrange(at + n + 1, at + n + 1 + name.len()) =~= rest.subrange(
                at,
                at + name.len(),
            ));
        }
        if has_extension(rest, name) {
            let at = choose|at: int| stands_at(rest, name, at);
            assert(stands_at(extensions, name, at + n + 1));
        }
        assert forall|at: int| stands_at(extensions, name, at) implies extensions.take(n) == name
            || has_extension(rest, name) by {
            if at == 0 {
                if name.len() > n {
                    assert(name[n] == extensions.subrange(0, name.len() as int)[n]);
                    assert(name.contains(' '));
                }
                assert(extensions.take(n) =~= extensions.subrange(0, name.len() as int));
            } else {
                assert(at > n);
                assert(rest.subrange(at - n - 1, at - n - 1 + name.len()) =~= extensions.subrange(
                    at,
                    at + name.len(),
                ));
                assert(stands_at(rest, name, at - n - 1));
            }
        }
    }
}

/// Two extension strings with a space between them offer what either of them offers,
/// and nothing else.
pub proof fn law_joined_strings_offer_what_each_offers(
    left: Seq<char>,
    right: Seq<char>,
    name: Seq<char>,
)
    ensures
        has_extension(left + seq![' '] + right, name) <==> has_extension(left, name)
            || has_extension(right, name),
    decreases left.len(),
{
    let all = left + seq![' '] + right;
    lemma_name_len(left);
    let n = name_len(left) as int;
    assert forall|i: int| 0 <= i < n implies all[i] != ' ' by {
        assert(all[i] == left[i]);
    }
    if n == left.len() {
        assert(all[n] == ' ');
        lemma_has_cons(all, n, name);
        lemma_has_last(left, name);
        assert(all.take(n) =~= left);
        assert(all.skip(n + 1) =~= right);
    } else {
        assert(all[n] == left[n]);
        lemma_has_cons(all, n, name);
        lemma_has_cons(left, n, name);
        assert(all.take(n) =~= left.take(n));
        assert(all.skip(n + 1) =~= left.skip(n + 1) + seq![' '] + right);
        law_joined_strings_offer_what_each_offers(left.skip(n + 1), right, name);
    }
}

/// A string without a space offers itself and nothing else.
pub proof fn law_string_without_space_offers_itself(extensions: Seq<char>, name: Seq<char>)
    requires
        !extensions.contains(' '),
    ensures
        has_extension(extensions, name) <==> extensions == name,
{
    assert forall|i: int| 0 <= i < extensions.len() implies extensions[i] != ' ' by {
        assert(extensions.contains(extensions[i]));
    }
    lemma_has_last(extensions, name);
}

/// The characters of `s`.
fn characters(s: &str) -> (v: Vec<char>)
    ensures
        v@ == s@,
{
    let mut v: Vec<char> = Vec::new();
    for c in it: s.chars()
        invariant
            it.seq() == s@,
            v@ == s@.take(it.index() as int),
    {
        v.push(c);
    }
    proof {
        assert(s@.take(s@.len() as int) =~= s@);
    }
    v
}

/// Whether the characters of `s` from `from` up to `to` are those of `name`.
fn same_at(s: &Vec<char>, from: usize, to: usize, name: &Vec<char>) -> (same: bool)
    requires
        from <= to <= s@.len(),
    ensures
        same == (s@.subrange(from as int, to as int) == name@),
{
    if to - from != name.len() {
        return false;
    }
    let mut i: usize = 0;
    while i < name.len()
        invariant
            from <= to <= s@.len(),
            to - from == name@.len(),
            i <= name@.len(),
            forall|j: int| 0 <= j < i ==> s@[from + j] == name@[j],
        decreases name@.len() - i,
    {
        if s[from + i] != name[i] {
            assert(s@.subrange(from as int, to as int)[i as int] != name@[i as int]);
            return false;
        }
        i = i + 1;
    }
    assert(s@.subrange(from as int, to as int) =~= name@);
    true
}

/// Checks if `ext` is available: whether it is one of the names in `extensions`.
pub fn check_ext(extensions: &str, ext: &str) -> (available: bool)
    ensures
        available == has_extension(extensions@, ext@),
{
    let chars: Vec<char> = characters(extensions);
    let name: Vec<char> = characters(ext);
    let mut start: usize = 0;
    let mut i: usize = 0;
    proof {
        assert(chars@.skip(0) =~= chars@);
    }
    while i < chars.len()
        invariant
            chars@ == extensions@,
            name@ == ext@,
            start <= i <= chars@.len(),
            forall|j: int| start <= j < i ==> chars@[j] != ' ',
            has_extension(extensions@, ext@) == has_extension(chars@.skip(start as int), ext@),
        decreases chars@.len() - i,
    {
        if chars[i] == ' ' {
            let ghost tail = chars@.skip(start as int);
            proof {
                lemma_has_cons(tail, i - start, ext@);
                assert(tail.take(i - start) =~= chars@.subrange(start as int, i as int));
                assert(tail.skip(i - start + 1) =~= chars@.skip(i + 1));
            }
            if same_at(&chars, start, i, &name) {
                return true;
            }
            start = i + 1;
        }
        i = i + 1;
    }
    proof {
        let tail = chars@.skip(start as int);
        lemma_has_last(tail, ext@);
        assert(tail =~= chars@.subrange(start as int, i as int));
    }
    same_at(&chars, start, i, &name)
}

} // verus!
