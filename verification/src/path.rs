//! Where projects live: the two roots and the paths below them.

use vstd::prelude::*;
use vstd::string::*;

verus! {

/// The persistent root: projects here outlive a reboot.
pub const CDTEST_ROOT_VAR: &'static str = "/var/tmp/cdtest";

/// The volatile root: projects here are gone after a reboot.
pub const CDTEST_ROOT_TMP: &'static str = "/tmp/cdtest";

/// The name of the metadata file inside the directory of a project.
pub const CDTEST_TOML: &'static str = ".cdtest.toml";

/// The path of `name` below `base`, as Unix paths are joined: a `name`
/// that starts at the root stands for itself, and a separator is put in
/// where `base` does not end in one.
pub open spec fn joined(base: Seq<char>, name: Seq<char>) -> Seq<char> {
    if name.len() > 0 && name[0] == '/' {
        name
    } else if base.len() > 0 && base.last() != '/' {
        base + seq!['/'] + name
    } else {
        base + name
    }
}

/// Whether a name does not start at the root, so that it is joined to
/// what it is put under.
pub open spec fn is_relative(name: Seq<char>) -> bool {
    name.len() == 0 || name[0] != '/'
}

/// Whether `path` starts with all of `lead`.
pub open spec fn starts_with(path: Seq<char>, lead: Seq<char>) -> bool {
    lead.len() <= path.len() && path.subrange(0, lead.len() as int) == lead
}

/// Joins `name` to `base`.
pub fn join(base: &str, name: &str) -> (path: String)
    ensures
        path@ == joined(base@, name@),
{
    if name.unicode_len() > 0 && name.get_char(0) == '/' {
        return String::from_str(name);
    }
    let mut path = String::from_str(base);
    let len = base.unicode_len();
    if len > 0 && base.get_char(len - 1) != '/' {
        proof {
            reveal_strlit("/");
            assert("/"@ == seq!['/']);
        }
        path.append("/");
    }
    path.append(name);
    path
}

/// A relative name has its place under each root: the root, a separator,
/// the name. So no path under the volatile root starts like the
/// persistent root, and none is shared by the two.
pub proof fn lemma_homes_are_apart(name: Seq<char>)
    requires
        is_relative(name),
    ensures
        joined(CDTEST_ROOT_VAR@, name) == CDTEST_ROOT_VAR@ + seq!['/'] + name,
        joined(CDTEST_ROOT_TMP@, name) == CDTEST_ROOT_TMP@ + seq!['/'] + name,
        joined(CDTEST_ROOT_VAR@, name).len() > 1 && joined(CDTEST_ROOT_VAR@, name)[1] == 'v',
        joined(CDTEST_ROOT_TMP@, name).len() > 1 && joined(CDTEST_ROOT_TMP@, name)[1] == 't',
        joined(CDTEST_ROOT_VAR@, name) != joined(CDTEST_ROOT_TMP@, name),
        !starts_with(joined(CDTEST_ROOT_TMP@, name), CDTEST_ROOT_VAR@),
        !starts_with(joined(CDTEST_ROOT_VAR@, name), CDTEST_ROOT_TMP@),
{
    reveal_strlit("/var/tmp/cdtest");
    reveal_strlit("/tmp/cdtest");
    let var = joined(CDTEST_ROOT_VAR@, name);
    let tmp = joined(CDTEST_ROOT_TMP@, name);
    assert(var[1] == 'v');
    assert(tmp[1] == 't');
    if starts_with(tmp, CDTEST_ROOT_VAR@) {
        assert(tmp.subrange(0, CDTEST_ROOT_VAR@.len() as int)[1] == CDTEST_ROOT_VAR@[1]);
    }
    if starts_with(var, CDTEST_ROOT_TMP@) {
        assert(var.subrange(0, CDTEST_ROOT_TMP@.len() as int)[1] == CDTEST_ROOT_TMP@[1]);
    }
}

/// The metadata file of a directory has a path of its own, which starts
/// with that of the directory.
pub proof fn lemma_metadata_file_is_inside(dir: Seq<char>)
    ensures
        joined(dir, CDTEST_TOML@).len() > dir.len(),
        starts_with(joined(dir, CDTEST_TOML@), dir),
        joined(dir, CDTEST_TOML@) != dir,
{
    reveal_strlit(".cdtest.toml");
    let file = joined(dir, CDTEST_TOML@);
    assert(file.subrange(0, dir.len() as int) =~= dir);
}

} // verus!
