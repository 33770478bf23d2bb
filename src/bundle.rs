use vstd::prelude::*;

verus! {

/// Joins the compatibility shim, the application bundle and the entry-point
/// expression into one script, separated by `;`.
pub fn assemble_bundle(shim: &str, code: &str, entry: &str) -> (r: String)
    ensures
        r@ == shim@ + seq![';'] + code@ + seq![';'] + entry@,
{
    let mut r = shim.to_owned();
    r.append(";");
    r.append(code);
    r.append(";");
    r.append(entry);
    proof {
        reveal_strlit(";");
    }
    r
}

pub open spec fn has_suffix(s: Seq<char>, suffix: Seq<char>) -> bool {
    suffix.len() <= s.len() && s.subrange(s.len() - suffix.len(), s.len() as int) == suffix
}

/// `s` with every occurrence of a non-empty `pat` replaced by `to`, matches
/// taken from the left and not overlapping.
pub open spec fn replaced(s: Seq<char>, pat: Seq<char>, to: Seq<char>) -> Seq<char>
    decreases s.len(),
{
    if pat.len() == 0 || s.len() < pat.len() {
        s
    } else if s.take(pat.len() as int) == pat {
        to + replaced(s.skip(pat.len() as int), pat, to)
    } else {
        seq![s[0]] + replaced(s.skip(1), pat, to)
    }
}

/// Relies on str::ends_with, with a string pattern: whether `suffix` ends `s`.
#[verifier::external_body]
fn ends_with(s: &str, suffix: &str) -> (r: bool)
    ensures
        r == has_suffix(s@, suffix@),
{
    s.ends_with(suffix)
}

/// Relies on str::replace, with a non-empty string pattern: the matches are
/// found from the left without overlap, and each is replaced.
#[verifier::external_body]
fn replace_all(s: &str, pat: &str, to: &str) -> (r: String)
    requires
        pat@.len() > 0,
    ensures
        r@ == replaced(s@, pat@, to@),
{
    s.replace(pat, to)
}

/// The position of the first name that ends with `suffix`.
pub fn first_with_suffix(names: &Vec<String>, suffix: &str) -> (r: Option<usize>)
    ensures
        match r {
            Some(i) => i < names.len() && has_suffix(names@[i as int]@, suffix@) && forall|j: int|
                0 <= j < i ==> !has_suffix(#[trigger] names@[j]@, suffix@),
            None => forall|j: int| 0 <= j < names.len() ==> !has_suffix(#[trigger] names@[j]@, suffix@),
        },
{
    let mut i: usize = 0;
    while i < names.len()
        invariant
            i <= names.len(),
            forall|j: int| 0 <= j < i ==> !has_suffix(#[trigger] names@[j]@, suffix@),
        decreases names.len() - i,
    {
        if ends_with(names[i].as_str(), suffix) {
            return Some(i);
        }
        i += 1;
    }
    None
}

/// Points the bundle at the deployed asset files: every `ssr.css` becomes
/// `style`, and then every `bundle.js` becomes `script`.
pub fn link_assets(bundle: &str, style: &str, script: &str) -> (r: String)
    ensures
        r@ == replaced(replaced(bundle@, "ssr.css"@, style@), "bundle.js"@, script@),
{
    proof {
        reveal_strlit("ssr.css");
        reveal_strlit("bundle.js");
    }
    let styled = replace_all(bundle, "ssr.css", style);
    replace_all(styled.as_str(), "bundle.js", script)
}

} // verus!
