use vstd::prelude::*;

verus! {

/// Replacement of every occurrence of `pat` in `text` by `repl`:
/// leftmost match first, non-overlapping, and the scan resumes after the
/// inserted replacement (the replacement itself is never rescanned).
/// With an empty pattern the text is returned unchanged.
pub open spec fn spec_replace(text: Seq<char>, pat: Seq<char>, repl: Seq<char>) -> Seq<char>
    decreases text.len(),
{
    if pat.len() == 0 || text.len() < pat.len() {
        text
    } else if text.subrange(0, pat.len() as int) == pat {
        repl + spec_replace(text.skip(pat.len() as int), pat, repl)
    } else {
        seq![text[0]] + spec_replace(text.skip(1), pat, repl)
    }
}

proof fn lemma_replace_step_match(text: Seq<char>, pat: Seq<char>, repl: Seq<char>, i: int)
    requires
        0 <= i,
        pat.len() > 0,
        i + pat.len() <= text.len(),
        text.subrange(i, i + pat.len() as int) == pat,
    ensures
        spec_replace(text.skip(i), pat, repl) == repl + spec_replace(
            text.skip(i + pat.len() as int),
            pat,
            repl,
        ),
{
    let rest = text.skip(i);
    assert(rest.subrange(0, pat.len() as int) =~= text.subrange(i, i + pat.len() as int));
    assert(rest.skip(pat.len() as int) =~= text.skip(i + pat.len() as int));
}

proof fn lemma_replace_step_char(text: Seq<char>, pat: Seq<char>, repl: Seq<char>, i: int)
    requires
        0 <= i < text.len(),
        pat.len() > 0,
        text.len() < i + pat.len() || text.subrange(i, i + pat.len() as int) != pat,
    ensures
        spec_replace(text.skip(i), pat, repl) == seq![text[i]] + spec_replace(
            text.skip(i + 1),
            pat,
            repl,
        ),
{
    let rest = text.skip(i);
    if text.len() < i + pat.len() {
        assert(rest.len() < pat.len());
        assert(rest =~= seq![text[i]] + text.skip(i + 1));
        assert(text.skip(i + 1).len() < pat.len());
        assert(spec_replace(text.skip(i + 1), pat, repl) == text.skip(i + 1));
    } else {
        assert(rest.subrange(0, pat.len() as int) =~= text.subrange(i, i + pat.len() as int));
        assert(rest[0] == text[i]);
        assert(rest.skip(1) =~= text.skip(i + 1));
        assert(spec_replace(rest, pat, repl) == seq![rest[0]] + spec_replace(
            rest.skip(1),
            pat,
            repl,
        ));
        assert(seq![rest[0]] =~= seq![text[i]]);
    }
}

/// Whether `pat` occurs anywhere in `text`.
pub open spec fn occurs_in(text: Seq<char>, pat: Seq<char>) -> bool {
    exists|i: int|
        0 <= i && i + pat.len() <= text.len() && #[trigger] text.subrange(
            i,
            i + pat.len() as int,
        ) == pat
}

/// Law: replacement in a text in which the pattern never occurs returns
/// the text unchanged.
pub proof fn lemma_replace_absent(text: Seq<char>, pat: Seq<char>, repl: Seq<char>)
    requires
        pat.len() > 0,
        !occurs_in(text, pat),
    ensures
        spec_replace(text, pat, repl) == text,
    decreases text.len(),
{
    if text.len() < pat.len() {
    } else {
        let w: int = 0;
        assert(text.subrange(w, w + pat.len() as int) != pat);
        assert(text.subrange(0, pat.len() as int) == text.subrange(w, w + pat.len() as int));
        let tail = text.skip(1);
        assert forall|i: int| 0 <= i && i + pat.len() <= tail.len() implies #[trigger] tail.subrange(
            i,
            i + pat.len() as int,
        ) != pat by {
            assert(tail.subrange(i, i + pat.len() as int) =~= text.subrange(
                i + 1,
                i + 1 + pat.len() as int,
            ));
        }
        lemma_replace_absent(tail, pat, repl);
        assert(seq![text[0]] + tail =~= text);
    }
}

/// Law: when the pattern occurs at exactly one place of the text — the
/// text is `a + pat + b` and no other position carries an occurrence —
/// the replacement yields `a + repl + b`: the pattern is swapped for the
/// replacement and everything around it is kept unchanged.
pub proof fn lemma_replace_single_occurrence(
    a: Seq<char>,
    pat: Seq<char>,
    b: Seq<char>,
    repl: Seq<char>,
)
    requires
        pat.len() > 0,
        forall|i: int|
            0 <= i && i + pat.len() <= (a + pat + b).len() && i != a.len()
                ==> #[trigger] (a + pat + b).subrange(i, i + pat.len() as int) != pat,
    ensures
        spec_replace(a + pat + b, pat, repl) == a + repl + b,
    decreases a.len(),
{
    let t = a + pat + b;
    if a.len() == 0 {
        assert(t.subrange(0, pat.len() as int) =~= pat);
        assert(t.skip(pat.len() as int) =~= b);
        assert forall|i: int| 0 <= i && i + pat.len() <= b.len() implies #[trigger] b.subrange(
            i,
            i + pat.len() as int,
        ) != pat by {
            assert(b.subrange(i, i + pat.len() as int) =~= t.subrange(
                i + pat.len(),
                i + pat.len() + pat.len(),
            ));
        }
        lemma_replace_absent(b, pat, repl);
        assert(repl + b =~= a + repl + b);
    } else {
        let w: int = 0;
        assert(t.subrange(w, w + pat.len() as int) != pat);
        assert(t.subrange(0, pat.len() as int) == t.subrange(w, w + pat.len() as int));
        assert(t.len() >= pat.len());
        let a2 = a.skip(1);
        let t2 = a2 + pat + b;
        assert(t2 =~= t.skip(1));
        assert forall|i: int|
            0 <= i && i + pat.len() <= t2.len() && i != a2.len() implies #[trigger] t2.subrange(
            i,
            i + pat.len() as int,
        ) != pat by {
            assert(t2.subrange(i, i + pat.len() as int) =~= t.subrange(
                i + 1,
                i + 1 + pat.len() as int,
            ));
        }
        lemma_replace_single_occurrence(a2, pat, b, repl);
        assert(spec_replace(t, pat, repl) == seq![t[0]] + spec_replace(t.skip(1), pat, repl));
        assert(seq![t[0]] + (a2 + repl + b) =~= a + repl + b);
    }
}

/// Whether the characters of `pat` occur in `text` starting at `i`.
fn matches_at(text: &str, i: usize, pat: &str, plen: usize) -> (r: bool)
    requires
        plen == pat@.len(),
        i + plen <= text@.len(),
        text@.len() <= usize::MAX,
    ensures
        r == (text@.subrange(i as int, i + plen) == pat@),
{
    let mut j: usize = 0;
    while j < plen
        invariant
            0 <= j <= plen,
            plen == pat@.len(),
            i + plen <= text@.len() <= usize::MAX,
            forall|k: int| 0 <= k < j ==> text@[i + k] == pat@[k],
        decreases plen - j,
    {
        let c = text.get_char(i + j);
        let p = pat.get_char(j);
        if c != p {
            assert(text@.subrange(i as int, i + plen)[j as int] != pat@[j as int]);
            return false;
        }
        j = j + 1;
    }
    assert(text@.subrange(i as int, i + plen) =~= pat@);
    true
}

/// Replace every occurrence of `pat` in `text` by `repl`, leftmost first,
/// never rescanning inserted replacements, exactly as [`spec_replace`]
/// states it.
pub fn replace_all(text: &str, pat: &str, repl: &str) -> (r: String)
    requires
        pat@.len() > 0,
    ensures
        r@ == spec_replace(text@, pat@, repl@),
{
    let n: usize = text.unicode_len();
    let plen: usize = pat.unicode_len();
    let mut r = String::new();
    let mut i: usize = 0;
    proof {
        assert(text@.skip(0) =~= text@);
        assert(r@ + spec_replace(text@, pat@, repl@) =~= spec_replace(text@, pat@, repl@));
    }
    while i < n
        invariant
            0 <= i <= n,
            n == text@.len(),
            plen == pat@.len(),
            plen > 0,
            spec_replace(text@, pat@, repl@) == r@ + spec_replace(
                text@.skip(i as int),
                pat@,
                repl@,
            ),
        decreases n - i,
    {
        let ghost r_pre = r@;
        if plen <= n - i && matches_at(text, i, pat, plen) {
            r.append(repl);
            proof {
                lemma_replace_step_match(text@, pat@, repl@, i as int);
                assert((r_pre + repl@) + spec_replace(text@.skip(i + plen), pat@, repl@) =~= r_pre
                    + (repl@ + spec_replace(text@.skip(i + plen), pat@, repl@)));
            }
            i = i + plen;
        } else {
            let piece = text.substring_char(i, i + 1);
            r.append(piece);
            proof {
                lemma_replace_step_char(text@, pat@, repl@, i as int);
                assert(piece@ =~= seq![text@[i as int]]);
                assert((r_pre + piece@) + spec_replace(text@.skip(i + 1), pat@, repl@) =~= r_pre
                    + (seq![text@[i as int]] + spec_replace(text@.skip(i + 1), pat@, repl@)));
            }
            i = i + 1;
        }
    }
    proof {
        assert(text@.skip(n as int) =~= Seq::<char>::empty());
        assert(r@ + spec_replace(Seq::<char>::empty(), pat@, repl@) =~= r@);
    }
    r
}

/// The substitution performed on the proxy configuration template: the
/// empty-string placeholder of the `server` field becomes the configured
/// server address, then the placeholder of the `password` field becomes
/// the configured password.  Plain text replacement, not JSON-aware: a
/// template without the exact placeholder text is returned unchanged, and
/// a secret containing a double quote corrupts the file.
pub open spec fn spec_substitute(t: Seq<char>, server: Seq<char>, password: Seq<char>) -> Seq<
    char,
> {
    let t1 = spec_replace(t, "\"server\": \"\""@, "\"server\": \""@ + server + "\""@);
    spec_replace(t1, "\"password\": \"\""@, "\"password\": \""@ + password + "\""@)
}

/// Fill the proxy credentials into the staged configuration template,
/// exactly as [`spec_substitute`] states it.
pub fn substitute_secrets(template: &str, server: &str, password: &str) -> (r: String)
    ensures
        r@ == spec_substitute(template@, server@, password@),
{
    proof {
        reveal_strlit("\"server\": \"\"");
        reveal_strlit("\"password\": \"\"");
    }
    let server_repl = "\"server\": \"".to_owned().concat(server).concat("\"");
    let t1 = replace_all(template, "\"server\": \"\"", server_repl.as_str());
    let password_repl = "\"password\": \"".to_owned().concat(password).concat("\"");
    replace_all(t1.as_str(), "\"password\": \"\"", password_repl.as_str())
}

} // verus!
