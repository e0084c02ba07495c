//! What holds of the operation as a whole, proved once and for all: the
//! target path ends in a separator followed by the literal name and stays
//! absolute, and the confirmation message really mentions the name and
//! the path.

use vstd::prelude::*;

use crate::message::success_message_spec;
use crate::path::target_path_spec;

verus! {

/// Whether `needle` occurs contiguously inside `hay`.
pub open spec fn occurs_in(hay: Seq<char>, needle: Seq<char>) -> bool {
    exists|i: int|
        0 <= i && i + needle.len() <= hay.len() && #[trigger] hay.subrange(i, i + needle.len())
            == needle
}

/// For every name and nonempty working directory, the target path ends
/// with a separator followed by the literal name, and it begins as the
/// working directory begins, so it is absolute whenever the directory is.
pub proof fn lemma_target_path_shape(name: Seq<char>, cwd: Seq<char>)
    requires
        cwd.len() > 0,
    ensures
        target_path_spec(cwd, name).len() > name.len(),
        target_path_spec(cwd, name).subrange(
            target_path_spec(cwd, name).len() - name.len() - 1,
            target_path_spec(cwd, name).len() as int,
        ) == seq!['/'] + name,
        target_path_spec(cwd, name).first() == cwd.first(),
{
    reveal_strlit("/");
    let path = target_path_spec(cwd, name);
    if cwd.last() == '/' {
        assert(path.subrange(path.len() - name.len() - 1, path.len() as int) =~= seq!['/']
            + name);
    } else {
        assert(("/")@ =~= seq!['/']);
        assert(path.subrange(path.len() - name.len() - 1, path.len() as int) =~= seq!['/']
            + name);
    }
}

/// The confirmation message contains the literal name and the literal
/// target path, whatever they are.
pub proof fn lemma_message_mentions(name: Seq<char>, path: Seq<char>)
    ensures
        occurs_in(success_message_spec(name, path), name),
        occurs_in(success_message_spec(name, path), path),
{
    let pre = "✅ Created an Aleo program '"@;
    let mid = "' (in \""@;
    let suf = "\")"@;
    let msg = success_message_spec(name, path);
    assert(msg =~= pre + name + mid + path + suf);
    let i = pre.len() as int;
    assert(msg.subrange(i, i + name.len()) =~= name);
    assert(occurs_in(msg, name));
    let j = (pre.len() + name.len() + mid.len()) as int;
    assert(msg.subrange(j, j + path.len()) =~= path);
    assert(occurs_in(msg, path));
}

} // verus!
