use vstd::prelude::*;

use crate::args::MACRO_DUMP_FLAG;

verus! {

/// Prefix of generated file names.
pub const TEMP_PREFIX: &'static str = "zig-cc-";

/// Suffix of the generated source file.
pub const SOURCE_SUFFIX: &'static str = ".cpp";

/// Suffix of the generated object file.
pub const OBJECT_SUFFIX: &'static str = ".obj";

/// Number of random characters in a generated file name.
pub const RANDOM_LEN: usize = 5;

/// A trivial valid translation unit, written to the generated source file.
pub const MINIMAL_SOURCE: &'static str = "
int main(int argc, char** argv) {
    return 0;
    (void)argc;
    (void)argv;
}
";

/// An ASCII letter or digit.
pub open spec fn is_alphanumeric(c: char) -> bool {
    ('a' <= c && c <= 'z') || ('A' <= c && c <= 'Z') || ('0' <= c && c <= '9')
}

/// `name` is `prefix`, then `n` letters or digits, then `suffix`.
pub open spec fn is_temp_name(name: Seq<char>, prefix: Seq<char>, suffix: Seq<char>, n: nat) -> bool {
    &&& name.len() == prefix.len() + n + suffix.len()
    &&& name.take(prefix.len() as int) == prefix
    &&& name.skip((prefix.len() + n) as int) == suffix
    &&& forall|i: int| prefix.len() <= i < prefix.len() + n ==> is_alphanumeric(#[trigger] name[i])
}

/// Relies on fastrand::alphanumeric: one character drawn from A-Z, a-z and 0-9.
#[verifier::external_body]
fn random_alphanumeric() -> (r: String)
    ensures
        r@.len() == 1,
        is_alphanumeric(r@[0]),
{
    fastrand::alphanumeric().to_string()
}

/// A fresh name: `prefix`, `rand_len` random letters or digits, `suffix`.
pub fn tmpname(prefix: &str, suffix: &str, rand_len: usize) -> (r: String)
    ensures
        is_temp_name(r@, prefix@, suffix@, rand_len as nat),
{
    let mut out = String::new();
    out.append(prefix);
    let mut i: usize = 0;
    while i < rand_len
        invariant
            i <= rand_len,
            out@.len() == prefix@.len() + i,
            out@.take(prefix@.len() as int) == prefix@,
            forall|k: int| prefix@.len() <= k < prefix@.len() + i ==> is_alphanumeric(#[trigger] out@[k]),
        decreases rand_len - i,
    {
        let c = random_alphanumeric();
        let ghost before = out@;
        out.append(c.as_str());
        assert(out@.take(prefix@.len() as int) =~= before.take(prefix@.len() as int));
        assert forall|k: int| prefix@.len() <= k < prefix@.len() + i + 1 implies is_alphanumeric(
            #[trigger] out@[k],
        ) by {
            if k < prefix@.len() + i {
                assert(out@[k] == before[k]);
            } else {
                assert(out@[k] == c@[0]);
            }
        }
        i = i + 1;
    }
    let ghost before = out@;
    out.append(suffix);
    assert(out@.take(prefix@.len() as int) =~= before.take(prefix@.len() as int));
    assert(out@.skip((prefix@.len() + rand_len) as int) =~= suffix@);
    assert forall|k: int| prefix@.len() <= k < prefix@.len() + rand_len implies is_alphanumeric(
        #[trigger] out@[k],
    ) by {
        assert(out@[k] == before[k]);
    }
    out
}

/// Names for the generated source file and object file. They always differ,
/// and neither can be taken for the macro-dump flag.
pub fn temp_file_names() -> (r: (String, String))
    ensures
        is_temp_name(r.0@, TEMP_PREFIX@, SOURCE_SUFFIX@, RANDOM_LEN as nat),
        is_temp_name(r.1@, TEMP_PREFIX@, OBJECT_SUFFIX@, RANDOM_LEN as nat),
        r.0@ != r.1@,
        r.0@ != MACRO_DUMP_FLAG@,
        r.1@ != MACRO_DUMP_FLAG@,
{
    let src = tmpname(TEMP_PREFIX, SOURCE_SUFFIX, RANDOM_LEN);
    let obj = tmpname(TEMP_PREFIX, OBJECT_SUFFIX, RANDOM_LEN);
    proof {
        reveal_strlit("zig-cc-");
        reveal_strlit(".cpp");
        reveal_strlit(".obj");
        reveal_strlit("-dM");
        assert(SOURCE_SUFFIX@[1] != OBJECT_SUFFIX@[1]);
        assert(src@.skip((TEMP_PREFIX@.len() + RANDOM_LEN) as int)[1] != obj@.skip((TEMP_PREFIX@.len() + RANDOM_LEN) as int)[1]);
        assert(src@.len() != MACRO_DUMP_FLAG@.len());
    }
    (src, obj)
}

} // verus!
