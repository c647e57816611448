use vstd::prelude::*;

verus! {

/// What `str::to_lowercase` returns for a string: the Unicode lowercase
/// mapping, which depends on the characters of the string alone.
pub uninterp spec fn lower_of(s: Seq<char>) -> Seq<char>;

/// `s` with every space replaced by an underscore.
pub open spec fn underscored(s: Seq<char>) -> Seq<char> {
    s.map_values(|c: char| if c == ' ' { '_' } else { c })
}

/// The normalized form of a project name: lowercased, then with every
/// space replaced by an underscore.
pub open spec fn normalized(name: Seq<char>) -> Seq<char> {
    underscored(lower_of(name))
}

/// Relies on `str::to_lowercase`: the lowercase mapping of the string.
#[verifier::external_body]
fn lowercase(s: &str) -> (r: String)
    ensures
        r@ == lower_of(s@),
{
    s.to_lowercase()
}

/// Replaces every space of `s` by an underscore.
fn underscore_spaces(s: &str) -> (r: String)
    ensures
        r@ == underscored(s@),
{
    let n = s.unicode_len();
    let mut out = String::new();
    let mut i: usize = 0;
    while i < n
        invariant
            n == s@.len(),
            i <= n,
            out@ == underscored(s@.subrange(0, i as int)),
        decreases n - i,
    {
        let c = s.get_char(i);
        proof {
            reveal_strlit("_");
        }
        if c == ' ' {
            out.append("_");
        } else {
            out.append(s.substring_char(i, i + 1));
        }
        assert(s@.subrange(0, i + 1) =~= s@.subrange(0, i as int).push(c));
        i += 1;
    }
    assert(s@.subrange(0, n as int) =~= s@);
    out
}

/// The normalized form of a project name, as used for the package name and
/// for the names of generated files and libraries.
pub fn name_formatter(name: &str) -> (r: String)
    ensures
        r@ == normalized(name@),
{
    let lower = lowercase(name);
    underscore_spaces(lower.as_str())
}

/// Replacing spaces by underscores a second time changes nothing.
pub proof fn lemma_underscored_idempotent(s: Seq<char>)
    ensures
        underscored(underscored(s)) == underscored(s),
{
    assert(underscored(underscored(s)) =~= underscored(s));
}

/// A normalized name holds no space.
pub proof fn lemma_normalized_has_no_space(name: Seq<char>)
    ensures
        forall|i: int| 0 <= i < normalized(name).len() ==> normalized(name)[i] != ' ',
{
}

/// Normalizing a normalized name gives it back whenever lowercasing leaves
/// that normalized name unchanged.
pub proof fn lemma_normalized_idempotent_when_lowercase(name: Seq<char>)
    requires
        lower_of(normalized(name)) == normalized(name),
    ensures
        normalized(normalized(name)) == normalized(name),
{
    lemma_underscored_idempotent(lower_of(name));
}

} // verus!
