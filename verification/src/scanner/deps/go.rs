//! Go manifests: `go.mod`.

use crate::scanner::deps::{
    dep_views, DepView, Dependency, DependencyError, DependencyType, Ecosystem,
};
use crate::text::{
    char_views, chars_of, contains, ends_with, has_part, has_prefix, has_suffix, is_text, lines,
    split_lines, split_words, starts_with, text_of, trim, trimmed, words,
};
use vstd::prelude::*;

verus! {

/// A dependency on the module `name` at `version`.
pub open spec fn module(
    name: Seq<char>,
    version: Seq<char>,
    kind: DependencyType,
    source: Seq<char>,
) -> DepView {
    DepView {
        name,
        version,
        dependency_type: kind,
        ecosystem: Ecosystem::Go,
        source_file: source,
    }
}

/// What a trimmed line declares as a `require` statement of its own: the
/// module and version that follow the word `require`.
pub open spec fn single_require(t: Seq<char>, source: Seq<char>) -> Seq<DepView> {
    let w = words(t);
    if has_prefix(t, "require "@) && !has_suffix(t, "("@) && w.len() >= 3 {
        seq![module(w[1], w[2], DependencyType::Runtime, source)]
    } else {
        seq![]
    }
}

/// What a trimmed line declares inside a `require` block: the module and
/// version that it starts with; a module marked `// indirect` counts as
/// needed for development.
pub open spec fn block_require(t: Seq<char>, source: Seq<char>) -> Seq<DepView> {
    let w = words(t);
    if t.len() > 0 && w.len() >= 2 {
        seq![
            module(
                w[0],
                w[1],
                if has_part(t, "// indirect"@) {
                    DependencyType::Development
                } else {
                    DependencyType::Runtime
                },
                source,
            ),
        ]
    } else {
        seq![]
    }
}

/// How far a `go.mod` has been read: whether the reader stands inside a
/// `require` block, and the dependencies found.
pub struct GoReading {
    pub in_block: bool,
    pub deps: Seq<DepView>,
}

/// The reading after one more line. A line that starts with `require (`
/// opens a block and a line `)` closes it; every other line is read as a
/// `require` statement and, inside a block, as a line of the block.
pub open spec fn go_line(before: GoReading, line: Seq<char>, source: Seq<char>) -> GoReading {
    let t = trimmed(line);
    if has_prefix(t, "require ("@) {
        GoReading { in_block: true, deps: before.deps }
    } else if before.in_block && t == ")"@ {
        GoReading { in_block: false, deps: before.deps }
    } else {
        GoReading {
            in_block: before.in_block,
            deps: before.deps + single_require(t, source) + (if before.in_block {
                block_require(t, source)
            } else {
                seq![]
            }),
        }
    }
}

/// The reading after the lines `ls`.
pub open spec fn go_lines(ls: Seq<Seq<char>>, source: Seq<char>) -> GoReading
    decreases ls.len(),
{
    if ls.len() == 0 {
        GoReading { in_block: false, deps: seq![] }
    } else {
        go_line(go_lines(ls.drop_last(), source), ls.last(), source)
    }
}

/// The dependencies that the text of a `go.mod` declares.
pub open spec fn go_mod(text: Seq<char>, source: Seq<char>) -> Seq<DepView> {
    go_lines(lines(text), source).deps
}

fn module_of(name: &Vec<char>, version: &Vec<char>, kind: DependencyType, source_file: &str) -> (d:
    Dependency)
    ensures
        d@ == module(name@, version@, kind, source_file@),
{
    Dependency {
        name: text_of(name),
        version: text_of(version),
        dependency_type: kind,
        ecosystem: Ecosystem::Go,
        source_file: source_file.to_owned(),
    }
}

/// Reads the text of a `go.mod`.
pub fn parse_go_mod(content: &str, source_file: &str) -> (r: Result<
    Vec<Dependency>,
    DependencyError,
>)
    ensures
        r matches Ok(deps) && dep_views(deps@) == go_mod(content@, source_file@),
{
    let all = split_lines(&chars_of(content));
    let ghost ls = char_views(all@);
    let mut deps: Vec<Dependency> = Vec::new();
    let mut in_block = false;
    let mut i: usize = 0;
    assert(dep_views(deps@) =~= Seq::<DepView>::empty());
    assert(ls.take(0) =~= Seq::<Seq<char>>::empty());
    while i < all.len()
        invariant
            i <= all.len(),
            ls == char_views(all@),
            go_lines(ls.take(i as int), source_file@) == (GoReading {
                in_block,
                deps: dep_views(deps@),
            }),
        decreases all.len() - i,
    {
        proof {
            assert(ls.take(i + 1).drop_last() =~= ls.take(i as int));
            assert(ls.take(i + 1).last() == all@[i as int]@);
        }
        let ghost before = dep_views(deps@);
        let t = trim(&all[i]);
        if starts_with(&t, "require (") {
            in_block = true;
        } else if in_block && is_text(&t, ")") {
            in_block = false;
        } else {
            let w = split_words(&t);
            assert(forall|k: int| 0 <= k < w.len() ==> char_views(w@)[k] == (#[trigger] w@[k])@);
            if starts_with(&t, "require ") && !ends_with(&t, "(") && w.len() >= 3 {
                let ghost old_deps = deps@;
                let d = module_of(&w[1], &w[2], DependencyType::Runtime, source_file);
                deps.push(d);
                assert(dep_views(deps@) =~= dep_views(old_deps).push(d@));
            }
            let ghost middle = dep_views(deps@);
            assert(middle =~= before + single_require(t@, source_file@));
            if in_block && t.len() > 0 && w.len() >= 2 {
                let kind = if contains(&t, "// indirect") {
                    DependencyType::Development
                } else {
                    DependencyType::Runtime
                };
                let ghost old_deps = deps@;
                let d = module_of(&w[0], &w[1], kind, source_file);
                deps.push(d);
                assert(dep_views(deps@) =~= dep_views(old_deps).push(d@));
            }
            assert(dep_views(deps@) =~= before + single_require(t@, source_file@) + (if in_block {
                block_require(t@, source_file@)
            } else {
                seq![]
            }));
        }
        i += 1;
    }
    assert(ls.take(all.len() as int) =~= ls);
    Ok(deps)
}

} // verus!
