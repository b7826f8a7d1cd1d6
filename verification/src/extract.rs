//! Where the extractors write an archived file.

use vstd::prelude::*;
use vstd::string::*;

use crate::text::push_char;

verus! {

/// `s` with every backslash turned into a forward slash.
pub open spec fn forward_slashes(s: Seq<char>) -> Seq<char> {
    s.map_values(|c: char| if c == '\\' { '/' } else { c })
}

/// `s` without its leading forward slashes.
pub open spec fn trim_leading_slashes(s: Seq<char>) -> Seq<char>
    decreases s.len(),
{
    if s.len() > 0 && s[0] == '/' {
        trim_leading_slashes(s.drop_first())
    } else {
        s
    }
}

/// The path, relative to the output directory, that an archived file is
/// written to.
pub open spec fn output_relative_path(filename: Seq<char>) -> Seq<char> {
    trim_leading_slashes(forward_slashes(filename))
}

proof fn lemma_trim_leading_slashes_skip(s: Seq<char>, i: int)
    requires
        0 <= i < s.len(),
        s[i] == '/',
    ensures
        trim_leading_slashes(s.subrange(i, s.len() as int)) == trim_leading_slashes(
            s.subrange(i + 1, s.len() as int),
        ),
{
    assert(s.subrange(i, s.len() as int).drop_first() =~= s.subrange(i + 1, s.len() as int));
}

/// Placing a file is idempotent: the output path of an output path is itself.
pub proof fn lemma_output_relative_path_idempotent(filename: Seq<char>)
    ensures
        output_relative_path(output_relative_path(filename)) == output_relative_path(filename),
{
    let fw = forward_slashes(filename);
    lemma_trim_leading_slashes_shape(fw);
    let p = output_relative_path(filename);
    assert(forward_slashes(p) =~= p);
}

/// Where a file goes: the name with its leading run of slashes and
/// backslashes cut off, and every backslash in the rest turned into a forward
/// slash, every other character kept.
pub proof fn lemma_output_relative_path_exact(filename: Seq<char>)
    ensures
        exists|k: int|
            #![trigger filename.subrange(k, filename.len() as int)]
            0 <= k <= filename.len() && (forall|j: int|
                0 <= j < k ==> #[trigger] filename[j] == '/' || filename[j] == '\\') && (k
                < filename.len() ==> filename[k] != '/' && filename[k] != '\\')
                && output_relative_path(filename).len() == filename.len() - k && (forall|j: int|
                0 <= j < filename.len() - k ==> #[trigger] output_relative_path(filename)[j] == if filename[k
                + j] == '\\' {
                '/'
            } else {
                filename[k + j]
            }),
{
    let fw = forward_slashes(filename);
    lemma_trim_leading_slashes_shape(fw);
    let k = choose|i: int|
        0 <= i <= fw.len() && trim_leading_slashes(fw) == fw.subrange(i, fw.len() as int) && (
        forall|m: int| 0 <= m < i ==> #[trigger] fw[m] == '/');
    assert(forall|j: int| 0 <= j < k ==> #[trigger] fw[j] == '/');
    assert forall|j: int| 0 <= j < k implies #[trigger] filename[j] == '/' || filename[j] == '\\' by {
        assert(fw[j] == '/');
    }
    if k < filename.len() {
        assert(trim_leading_slashes(fw)[0] == fw[k]);
    }
    let _ = filename.subrange(k, filename.len() as int);
}

proof fn lemma_trim_leading_slashes_shape(s: Seq<char>)
    ensures
        exists|i: int|
            0 <= i <= s.len() && trim_leading_slashes(s) == s.subrange(i, s.len() as int) && (
            forall|k: int| 0 <= k < i ==> #[trigger] s[k] == '/'),
        trim_leading_slashes(s).len() > 0 ==> trim_leading_slashes(s)[0] != '/',
    decreases s.len(),
{
    if s.len() > 0 && s[0] == '/' {
        lemma_trim_leading_slashes_shape(s.drop_first());
        let i = choose|i: int|
            0 <= i <= s.drop_first().len() && trim_leading_slashes(s.drop_first())
                == s.drop_first().subrange(i, s.drop_first().len() as int) && (forall|k: int|
                0 <= k < i ==> #[trigger] s.drop_first()[k] == '/');
        assert(s.drop_first().subrange(i, s.drop_first().len() as int) =~= s.subrange(
            i + 1,
            s.len() as int,
        ));
        assert forall|k: int| 0 <= k < i + 1 implies #[trigger] s[k] == '/' by {
            if k > 0 {
                assert(s[k] == s.drop_first()[k - 1]);
            }
        }
    } else {
        assert(s.subrange(0, s.len() as int) =~= s);
    }
}

fn is_separator(c: char) -> (b: bool)
    ensures
        b == (c == '\\' || c == '/'),
{
    c == '\\' || c == '/'
}

/// The archived file's name with backslashes turned into forward slashes and
/// leading slashes removed, so that it names a place under the output
/// directory.
pub fn relative_output_path(filename: &str) -> (path: String)
    ensures
        path@ == output_relative_path(filename@),
        forall|k: int| 0 <= k < path@.len() ==> path@[k] != '\\',
        path@.len() > 0 ==> path@[0] != '/',
{
    let ghost fw = forward_slashes(filename@);
    let n = filename.unicode_len();
    let mut i: usize = 0;
    assert(fw.subrange(0, n as int) =~= fw);
    while i < n && is_separator(filename.get_char(i))
        invariant
            n == filename@.len(),
            fw == forward_slashes(filename@),
            i <= n,
            output_relative_path(filename@) == trim_leading_slashes(fw.subrange(i as int, n as int)),
        decreases n - i,
    {
        proof {
            lemma_trim_leading_slashes_skip(fw, i as int);
        }
        i = i + 1;
    }
    let mut path = String::new();
    let mut j: usize = i;
    while j < n
        invariant
            n == filename@.len(),
            fw == forward_slashes(filename@),
            i <= j <= n,
            path@ == fw.subrange(i as int, j as int),
        decreases n - j,
    {
        let c = filename.get_char(j);
        if c == '\\' {
            push_char(&mut path, '/');
        } else {
            push_char(&mut path, c);
        }
        assert(path@ =~= fw.subrange(i as int, j + 1));
        j = j + 1;
    }
    proof {
        if i < n {
            assert(fw[i as int] != '/');
        }
    }
    path
}

} // verus!
