use vstd::prelude::*;

use crate::strings::{any_is, contains_text, has_segment, has_segment_text, occurs_in, same_text, views};

verus! {

/// Placeholder meaning standard input or standard output.
pub const STDIO_PLACEHOLDER: &'static str = "-";

/// Placeholder meaning the null device.
pub const NULL_PLACEHOLDER: &'static str = "nul";

/// The flag that asks the compiler to dump its predefined macros.
pub const MACRO_DUMP_FLAG: &'static str = "-dM";

/// The flag that asks for compilation to an object file.
pub const COMPILE_FLAG: &'static str = "-c";

/// The flag that names the output file.
pub const OUTPUT_FLAG: &'static str = "-o";

/// The flag that asks for the list of search directories.
pub const SEARCH_DIRS_FLAG: &'static str = "-print-search-dirs";

/// The flag that asks for the version string.
pub const VERSION_FLAG: &'static str = "-version";

/// Directory marker of the IDE whose builds probe from a scratch directory.
pub const IDE_MARKER: &'static str = "QtCreator";

/// Path segment that IDE probe directories hold.
pub const BIN_SEGMENT: &'static str = "bin";

/// The subcommands that compile source and so get their placeholders rewritten.
pub open spec fn compiles_source(tool: Seq<char>) -> bool {
    tool == "cc"@ || tool == "c++"@
}

/// An argument that stands for no real input or output.
pub open spec fn is_placeholder(arg: Seq<char>) -> bool {
    arg == STDIO_PLACEHOLDER@ || arg == NULL_PLACEHOLDER@
}

/// What the rewriter does with one caller argument.
#[derive(PartialEq, Eq, Structural, Debug, Clone, Copy)]
pub enum ArgAction {
    /// Pass the argument on unchanged.
    Forward,
    /// Replace it by the path of a generated source file.
    SourceFile,
    /// Replace it by `-c <source> -o <object>`.
    CompileToObject,
}

/// The rule table: the action for `arg`, given the arguments accumulated so far.
pub open spec fn action_of(acc: Seq<Seq<char>>, arg: Seq<char>) -> ArgAction {
    if !is_placeholder(arg) {
        ArgAction::Forward
    } else if acc.contains(MACRO_DUMP_FLAG@) {
        ArgAction::SourceFile
    } else {
        ArgAction::CompileToObject
    }
}

/// The accumulated arguments after handling `arg`.
pub open spec fn step(acc: Seq<Seq<char>>, arg: Seq<char>, src: Seq<char>, obj: Seq<char>) -> Seq<
    Seq<char>,
> {
    match action_of(acc, arg) {
        ArgAction::Forward => acc.push(arg),
        ArgAction::SourceFile => acc.push(src),
        ArgAction::CompileToObject => acc + seq![COMPILE_FLAG@, src, OUTPUT_FLAG@, obj],
    }
}

/// The accumulated arguments after handling each of `rest` in order.
pub open spec fn rewrite_from(
    acc: Seq<Seq<char>>,
    rest: Seq<Seq<char>>,
    src: Seq<char>,
    obj: Seq<char>,
) -> Seq<Seq<char>>
    decreases rest.len(),
{
    if rest.len() == 0 {
        acc
    } else {
        rewrite_from(step(acc, rest[0], src, obj), rest.drop_first(), src, obj)
    }
}

/// The arguments handed to the toolchain after the subcommand.
pub open spec fn rewritten(
    tool: Seq<char>,
    defaults: Seq<Seq<char>>,
    caller: Seq<Seq<char>>,
    src: Seq<char>,
    obj: Seq<char>,
) -> Seq<Seq<char>> {
    if compiles_source(tool) {
        rewrite_from(defaults, caller, src, obj)
    } else {
        defaults + caller
    }
}

/// Whether `arg` is a placeholder.
pub fn is_placeholder_arg(arg: &str) -> (r: bool)
    ensures
        r == is_placeholder(arg@),
{
    same_text(arg, STDIO_PLACEHOLDER) || same_text(arg, NULL_PLACEHOLDER)
}

/// Whether `tool` names a subcommand that compiles source.
pub fn is_compiler(tool: &str) -> (r: bool)
    ensures
        r == compiles_source(tool@),
{
    same_text(tool, "cc") || same_text(tool, "c++")
}

/// Looks up the rule table for `arg`.
pub fn placeholder_action(acc: &Vec<String>, arg: &str) -> (r: ArgAction)
    ensures
        r == action_of(views(acc@), arg@),
{
    if !is_placeholder_arg(arg) {
        ArgAction::Forward
    } else if any_is(acc, MACRO_DUMP_FLAG) {
        ArgAction::SourceFile
    } else {
        ArgAction::CompileToObject
    }
}

/// Copies `src` to the end of `dst`.
fn push_all(dst: &mut Vec<String>, src: &Vec<String>)
    ensures
        views(final(dst)@) == views(old(dst)@) + views(src@),
{
    let mut i: usize = 0;
    while i < src.len()
        invariant
            i <= src@.len(),
            views(dst@) == views(old(dst)@) + views(src@).take(i as int),
        decreases src@.len() - i,
    {
        let ghost before = dst@;
        dst.push(src[i].clone());
        assert(views(dst@) =~= views(before).push(src@[i as int]@));
        assert(views(src@).take(i + 1) =~= views(src@).take(i as int).push(src@[i as int]@));
        assert(views(dst@) =~= views(old(dst)@) + views(src@).take(i + 1));
        i = i + 1;
    }
    assert(views(src@).take(src@.len() as int) =~= views(src@));
}

/// Builds the argument list for the toolchain: the tool's default arguments,
/// then the caller's, with placeholders of compiling subcommands replaced by
/// the generated source path `src` (after the macro-dump flag) or by
/// `-c <src> -o <obj>`.
pub fn rewrite_args(
    tool: &str,
    defaults: &Vec<String>,
    caller: &Vec<String>,
    src: &String,
    obj: &String,
) -> (r: Vec<String>)
    ensures
        views(r@) == rewritten(tool@, views(defaults@), views(caller@), src@, obj@),
{
    let mut out: Vec<String> = Vec::new();
    push_all(&mut out, defaults);
    assert(views(out@) =~= views(defaults@));
    if !is_compiler(tool) {
        push_all(&mut out, caller);
        return out;
    }
    let ghost cv = views(caller@);
    assert(cv.skip(0) =~= cv);
    let mut i: usize = 0;
    while i < caller.len()
        invariant
            i <= caller@.len(),
            cv == views(caller@),
            rewrite_from(views(out@), cv.skip(i as int), src@, obj@) == rewrite_from(
                views(defaults@),
                cv,
                src@,
                obj@,
            ),
        decreases caller@.len() - i,
    {
        let ghost acc = views(out@);
        let arg = &caller[i];
        assert(cv.skip(i as int)[0] == arg@);
        assert(cv.skip(i as int).drop_first() =~= cv.skip(i + 1));
        match placeholder_action(&out, arg.as_str()) {
            ArgAction::Forward => {
                out.push(arg.clone());
            },
            ArgAction::SourceFile => {
                out.push(src.clone());
            },
            ArgAction::CompileToObject => {
                out.push(COMPILE_FLAG.to_string());
                out.push(src.clone());
                out.push(OUTPUT_FLAG.to_string());
                out.push(obj.clone());
            },
        }
        assert(views(out@) =~= step(acc, arg@, src@, obj@));
        i = i + 1;
    }
    assert(cv.skip(caller@.len() as int) =~= Seq::<Seq<char>>::empty());
    out
}

/// The arguments ask for the list of search directories.
pub open spec fn asks_search_dirs(defaults: Seq<Seq<char>>, caller: Seq<Seq<char>>) -> bool {
    defaults.contains(SEARCH_DIRS_FLAG@) || caller.contains(SEARCH_DIRS_FLAG@)
}

/// The arguments ask for the version string.
pub open spec fn asks_version(defaults: Seq<Seq<char>>, caller: Seq<Seq<char>>) -> bool {
    defaults.contains(VERSION_FLAG@) || caller.contains(VERSION_FLAG@)
}

/// The working directory looks like the scratch directory of an IDE probe.
pub open spec fn looks_like_ide_probe(cwd: Seq<char>) -> bool {
    occurs_in(IDE_MARKER@, cwd) && has_segment(BIN_SEGMENT@, cwd)
}

/// The child runs in the wrapper's install directory rather than the caller's.
pub open spec fn runs_in_install_dir(
    defaults: Seq<Seq<char>>,
    caller: Seq<Seq<char>>,
    cwd: Seq<char>,
) -> bool {
    asks_search_dirs(defaults, caller) || looks_like_ide_probe(cwd) || asks_version(
        defaults,
        caller,
    )
}

/// The working directory for the child: the install directory for probes of
/// search directories or version, or when the caller's directory looks like an
/// IDE probe; the caller's directory otherwise.
pub fn child_working_dir(
    defaults: &Vec<String>,
    caller: &Vec<String>,
    real_cwd: &String,
    install_dir: &String,
) -> (r: String)
    ensures
        r@ == if runs_in_install_dir(views(defaults@), views(caller@), real_cwd@) {
            install_dir@
        } else {
            real_cwd@
        },
{
    let search_dirs = any_is(defaults, SEARCH_DIRS_FLAG) || any_is(caller, SEARCH_DIRS_FLAG);
    let version = any_is(defaults, VERSION_FLAG) || any_is(caller, VERSION_FLAG);
    let ide = contains_text(real_cwd.as_str(), IDE_MARKER) && has_segment_text(
        real_cwd.as_str(),
        BIN_SEGMENT,
    );
    if search_dirs || ide || version {
        install_dir.clone()
    } else {
        real_cwd.clone()
    }
}

proof fn lemma_flags_distinct()
    ensures
        !is_placeholder(MACRO_DUMP_FLAG@),
        COMPILE_FLAG@ != MACRO_DUMP_FLAG@,
        OUTPUT_FLAG@ != MACRO_DUMP_FLAG@,
{
    reveal_strlit("-dM");
    reveal_strlit("-");
    reveal_strlit("nul");
    reveal_strlit("-c");
    reveal_strlit("-o");
    assert(MACRO_DUMP_FLAG@.len() == 3);
    assert(COMPILE_FLAG@.len() == 2);
    assert(OUTPUT_FLAG@.len() == 2);
    assert(STDIO_PLACEHOLDER@.len() == 1);
    assert(MACRO_DUMP_FLAG@[0] != NULL_PLACEHOLDER@[0]);
}

proof fn lemma_rewrite_push(
    acc: Seq<Seq<char>>,
    xs: Seq<Seq<char>>,
    a: Seq<char>,
    src: Seq<char>,
    obj: Seq<char>,
)
    ensures
        rewrite_from(acc, xs.push(a), src, obj) == step(rewrite_from(acc, xs, src, obj), a, src, obj),
    decreases xs.len(),
{
    if xs.len() == 0 {
        assert(xs.push(a).drop_first() =~= Seq::<Seq<char>>::empty());
        assert(xs.push(a)[0] == a);
        assert(rewrite_from(step(acc, a, src, obj), Seq::empty(), src, obj) == step(acc, a, src, obj));
    } else {
        assert(xs.push(a)[0] == xs[0]);
        assert(xs.push(a).drop_first() =~= xs.drop_first().push(a));
        lemma_rewrite_push(step(acc, xs[0], src, obj), xs.drop_first(), a, src, obj);
    }
}

proof fn lemma_step_extends(acc: Seq<Seq<char>>, a: Seq<char>, src: Seq<char>, obj: Seq<char>)
    ensures
        step(acc, a, src, obj).len() >= acc.len(),
        step(acc, a, src, obj).subrange(0, acc.len() as int) == acc,
{
    assert(step(acc, a, src, obj).subrange(0, acc.len() as int) =~= acc);
}

proof fn lemma_forward_only(acc: Seq<Seq<char>>, xs: Seq<Seq<char>>, src: Seq<char>, obj: Seq<char>)
    requires
        forall|i: int| 0 <= i < xs.len() ==> !is_placeholder(#[trigger] xs[i]),
    ensures
        rewrite_from(acc, xs, src, obj) == acc + xs,
    decreases xs.len(),
{
    if xs.len() == 0 {
        assert(acc + xs =~= acc);
    } else {
        assert(!is_placeholder(xs[0]));
        assert forall|i: int| 0 <= i < xs.drop_first().len() implies !is_placeholder(
            #[trigger] xs.drop_first()[i],
        ) by {
            assert(xs.drop_first()[i] == xs[i + 1]);
        }
        lemma_forward_only(acc.push(xs[0]), xs.drop_first(), src, obj);
        assert(acc.push(xs[0]) + xs.drop_first() =~= acc + xs);
    }
}

proof fn lemma_keeps_flag(acc: Seq<Seq<char>>, xs: Seq<Seq<char>>, src: Seq<char>, obj: Seq<char>)
    requires
        (acc + xs).contains(MACRO_DUMP_FLAG@),
    ensures
        rewrite_from(acc, xs, src, obj).contains(MACRO_DUMP_FLAG@),
    decreases xs.len(),
{
    if xs.len() == 0 {
        assert(acc + xs =~= acc);
    } else {
        let next = step(acc, xs[0], src, obj);
        lemma_step_extends(acc, xs[0], src, obj);
        let k = choose|k: int| 0 <= k < (acc + xs).len() && (acc + xs)[k] == MACRO_DUMP_FLAG@;
        if k < acc.len() {
            assert(next[k] == acc[k]);
            assert((next + xs.drop_first())[k] == MACRO_DUMP_FLAG@);
        } else if k == acc.len() {
            lemma_flags_distinct();
            assert(!is_placeholder(xs[0]));
            assert(next == acc.push(xs[0]));
            assert((next + xs.drop_first())[k] == MACRO_DUMP_FLAG@);
        } else {
            assert((next + xs.drop_first())[next.len() + k - acc.len() - 1] == xs[k - acc.len()]);
        }
        lemma_keeps_flag(next, xs.drop_first(), src, obj);
    }
}

proof fn lemma_lacks_flag(acc: Seq<Seq<char>>, xs: Seq<Seq<char>>, src: Seq<char>, obj: Seq<char>)
    requires
        !(acc + xs).contains(MACRO_DUMP_FLAG@),
        src != MACRO_DUMP_FLAG@,
        obj != MACRO_DUMP_FLAG@,
    ensures
        !rewrite_from(acc, xs, src, obj).contains(MACRO_DUMP_FLAG@),
    decreases xs.len(),
{
    if xs.len() == 0 {
        assert(acc + xs =~= acc);
    } else {
        let next = step(acc, xs[0], src, obj);
        lemma_flags_distinct();
        assert((acc + xs)[acc.len() as int] == xs[0]);
        assert forall|k: int| 0 <= k < (next + xs.drop_first()).len() implies (next
            + xs.drop_first())[k] != MACRO_DUMP_FLAG@ by {
            if k < acc.len() {
                assert((acc + xs)[k] == acc[k]);
            } else if k >= next.len() {
                assert((acc + xs)[k - next.len() + acc.len() + 1] == xs.drop_first()[k - next.len()]);
            }
        }
        lemma_lacks_flag(next, xs.drop_first(), src, obj);
    }
}

/// Without any placeholder among the caller's arguments, the toolchain gets
/// the default arguments followed by the caller's, in order.
pub proof fn law_no_placeholder_passes_through(
    tool: Seq<char>,
    defaults: Seq<Seq<char>>,
    caller: Seq<Seq<char>>,
    src: Seq<char>,
    obj: Seq<char>,
)
    requires
        forall|i: int| 0 <= i < caller.len() ==> !is_placeholder(#[trigger] caller[i]),
    ensures
        rewritten(tool, defaults, caller, src, obj) == defaults + caller,
{
    lemma_forward_only(defaults, caller, src, obj);
}

/// A placeholder that follows the macro-dump flag becomes the generated source
/// path alone: no `-c` or `-o` is added.
pub proof fn law_macro_dump_placeholder(
    tool: Seq<char>,
    defaults: Seq<Seq<char>>,
    before: Seq<Seq<char>>,
    placeholder: Seq<char>,
    src: Seq<char>,
    obj: Seq<char>,
)
    requires
        compiles_source(tool),
        is_placeholder(placeholder),
        (defaults + before).contains(MACRO_DUMP_FLAG@),
    ensures
        rewritten(tool, defaults, before.push(placeholder), src, obj) == rewritten(
            tool,
            defaults,
            before,
            src,
            obj,
        ).push(src),
{
    lemma_rewrite_push(defaults, before, placeholder, src, obj);
    lemma_keeps_flag(defaults, before, src, obj);
}

/// A placeholder with no macro-dump flag before it becomes
/// `-c <src> -o <obj>`.
pub proof fn law_probe_placeholder_compiles(
    tool: Seq<char>,
    defaults: Seq<Seq<char>>,
    before: Seq<Seq<char>>,
    placeholder: Seq<char>,
    src: Seq<char>,
    obj: Seq<char>,
)
    requires
        compiles_source(tool),
        is_placeholder(placeholder),
        !(defaults + before).contains(MACRO_DUMP_FLAG@),
        src != MACRO_DUMP_FLAG@,
        obj != MACRO_DUMP_FLAG@,
    ensures
        rewritten(tool, defaults, before.push(placeholder), src, obj) == rewritten(
            tool,
            defaults,
            before,
            src,
            obj,
        ) + seq![COMPILE_FLAG@, src, OUTPUT_FLAG@, obj],
{
    lemma_rewrite_push(defaults, before, placeholder, src, obj);
    lemma_lacks_flag(defaults, before, src, obj);
}

} // verus!
