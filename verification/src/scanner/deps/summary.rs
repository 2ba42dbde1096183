//! The summary of a dependency scan, laid out for the terminal.

use crate::scanner::deps::{
    dep_views, report_views, given, DepView, Dependency, DependencyReport, DependencyType,
    Ecosystem, ReportView,
};
use crate::scanner::git::shown_name;
use crate::text::{chars_of, decimal, decimal_text, slice_of, text_of};
use crate::utils::display::{
    badge, badge_spans, ecosystem_icon, file_path, header, header_spans, icon_of, lowercase,
    path_spans, plain, section_divider, section_spans, span_views, strong, summary_box,
    summary_spans, tinted, tree_item, tree_spans, version_display, version_spans, BadgeType,
    Color, Span, SpanView,
};
use crate::utils::fs::{file_name, texts};
use vstd::prelude::*;

verus! {

/// A count as it is kept: the number itself as far as it fits.
pub open spec fn capped(n: nat) -> nat {
    if n > usize::MAX {
        usize::MAX as nat
    } else {
        n
    }
}

/// What is written for one line: the spans and the line feed.
pub open spec fn line(spans: Seq<SpanView>) -> Seq<SpanView> {
    spans.push(plain("\n"@))
}

/// How many dependencies the first `n` reports hold.
pub open spec fn dependencies_among(reports: Seq<ReportView>, n: nat) -> nat
    decreases n,
{
    if n == 0 {
        0
    } else {
        dependencies_among(reports, (n - 1) as nat) + reports[n - 1].dependencies.len()
    }
}

/// How many errors the first `n` reports hold.
pub open spec fn errors_among(reports: Seq<ReportView>, n: nat) -> nat
    decreases n,
{
    if n == 0 {
        0
    } else {
        errors_among(reports, (n - 1) as nat) + reports[n - 1].errors.len()
    }
}

/// The dependencies of the ecosystem `ecosystem` among `deps`.
pub open spec fn of_ecosystem(deps: Seq<DepView>, ecosystem: Ecosystem) -> Seq<DepView> {
    deps.filter(|d: DepView| d.ecosystem == ecosystem)
}

/// How many dependencies of `ecosystem` the first `n` reports hold.
pub open spec fn dependencies_of(reports: Seq<ReportView>, ecosystem: Ecosystem, n: nat) -> nat
    decreases n,
{
    if n == 0 {
        0
    } else {
        dependencies_of(reports, ecosystem, (n - 1) as nat) + of_ecosystem(
            reports[n - 1].dependencies,
            ecosystem,
        ).len()
    }
}

/// Whether one of the reports names `ecosystem`.
pub open spec fn names(reports: Seq<ReportView>, ecosystem: Ecosystem) -> bool {
    exists|i: int| 0 <= i < reports.len() && (#[trigger] reports[i]).ecosystems.contains(ecosystem)
}

/// The ecosystems that the reports name, each once, in the order Rust,
/// Node.js, Python, Go.
pub open spec fn named_ecosystems(reports: Seq<ReportView>) -> Seq<Ecosystem> {
    given(names(reports, Ecosystem::Rust), Ecosystem::Rust) + given(
        names(reports, Ecosystem::NodeJs),
        Ecosystem::NodeJs,
    ) + given(names(reports, Ecosystem::Python), Ecosystem::Python) + given(
        names(reports, Ecosystem::Go),
        Ecosystem::Go,
    )
}

/// The ecosystems of which `deps` holds a dependency, each once, in the
/// order Rust, Node.js, Python, Go.
pub open spec fn groups_of(deps: Seq<DepView>) -> Seq<Ecosystem> {
    given(of_ecosystem(deps, Ecosystem::Rust).len() > 0, Ecosystem::Rust) + given(
        of_ecosystem(deps, Ecosystem::NodeJs).len() > 0,
        Ecosystem::NodeJs,
    ) + given(of_ecosystem(deps, Ecosystem::Python).len() > 0, Ecosystem::Python) + given(
        of_ecosystem(deps, Ecosystem::Go).len() > 0,
        Ecosystem::Go,
    )
}

/// The icon of an ecosystem.
pub open spec fn ecosystem_mark(ecosystem: Ecosystem) -> Seq<char> {
    icon_of(lowercase(ecosystem.name()))
}

/// The headline of the summary: how many ecosystems there are.
pub open spec fn title(ecosystems: nat) -> Seq<char> {
    "Dependency Analysis ("@ + decimal(ecosystems) + " ecosystems)"@
}

/// The items of the summary box.
pub open spec fn summary_items(projects: nat, dependencies: nat, ecosystems: nat, errors: nat)
    -> Seq<(Seq<char>, Seq<char>)> {
    seq![
        ("Total Projects"@, decimal(projects)),
        ("Total Dependencies"@, decimal(dependencies)),
        ("Ecosystems"@, decimal(ecosystems)),
        (
            "Errors"@,
            if errors > 0 {
                decimal(errors) + " ❌"@
            } else {
                "0"@
            },
        ),
    ]
}

/// The line of the breakdown for one ecosystem with `count` dependencies.
pub open spec fn breakdown_line(ecosystem: Ecosystem, count: nat) -> Seq<SpanView> {
    line(
        seq![
            plain("  "@),
            plain(ecosystem_mark(ecosystem)),
            plain(" "@),
            strong(ecosystem.name(), Color::BrightCyan),
            plain(" "@),
            strong(decimal(count), Color::BrightWhite),
            plain(" dependencies"@),
        ],
    )
}

/// The lines of the breakdown for the first `n` of `ecosystems`.
pub open spec fn breakdown_lines(reports: Seq<ReportView>, ecosystems: Seq<Ecosystem>, n: nat)
    -> Seq<SpanView>
    decreases n,
{
    if n == 0 {
        seq![]
    } else {
        breakdown_lines(reports, ecosystems, (n - 1) as nat) + breakdown_line(
            ecosystems[n - 1],
            capped(dependencies_of(reports, ecosystems[n - 1], reports.len())),
        )
    }
}

/// The breakdown by ecosystem: its head and a line for each ecosystem;
/// nothing where no ecosystem is named.
pub open spec fn breakdown(reports: Seq<ReportView>) -> Seq<SpanView> {
    let ecosystems = named_ecosystems(reports);
    if ecosystems.len() == 0 {
        seq![]
    } else {
        line(section_spans("Ecosystem Breakdown"@)) + breakdown_lines(
            reports,
            ecosystems,
            ecosystems.len(),
        )
    }
}

/// The word on the badge of a kind of dependency.
pub open spec fn kind_label(kind: DependencyType) -> Seq<char> {
    match kind {
        DependencyType::Runtime => "prod"@,
        DependencyType::Development => "dev"@,
        DependencyType::Build => "build"@,
        DependencyType::Optional => "opt"@,
    }
}

/// The badge of a kind of dependency.
pub open spec fn kind_badge(kind: DependencyType) -> BadgeType {
    match kind {
        DependencyType::Runtime => BadgeType::Runtime,
        DependencyType::Development => BadgeType::Dev,
        DependencyType::Build => BadgeType::Build,
        DependencyType::Optional => BadgeType::Optional,
    }
}

/// A path as it is shown: one of more than 35 characters by its last 32,
/// behind three dots.
pub open spec fn shortened(path: Seq<char>) -> Seq<char> {
    if path.len() > 35 {
        "..."@ + path.skip(path.len() - 32)
    } else {
        path
    }
}

/// One dependency: the package with its version, the badge of its kind,
/// the manifest's path.
pub open spec fn dependency_spans(d: DepView) -> Seq<SpanView> {
    version_spans(d.name, d.version, None) + seq![plain(" "@)] + badge_spans(
        kind_label(d.dependency_type),
        kind_badge(d.dependency_type),
    ) + seq![plain(" "@)] + path_spans(shortened(d.source_file))
}

/// How many dependencies of a group of `len` are listed: eight at most.
pub open spec fn listed(len: nat) -> nat {
    if len > 8 {
        8
    } else {
        len
    }
}

/// The lines of the first `n` dependencies of a group. The last item of the
/// group's tree is the last dependency, unless more follow unlisted.
pub open spec fn dependency_lines(deps: Seq<DepView>, n: nat) -> Seq<SpanView>
    decreases n,
{
    if n == 0 {
        seq![]
    } else {
        dependency_lines(deps, (n - 1) as nat) + line(
            tree_spans(dependency_spans(deps[n - 1]), n == deps.len() && deps.len() <= 8, 2),
        )
    }
}

/// The head of a group: the ecosystem and the number of its dependencies.
pub open spec fn group_head(ecosystem: Ecosystem, len: nat) -> Seq<SpanView> {
    seq![
        plain(ecosystem_mark(ecosystem)),
        plain(" "@),
        tinted(ecosystem.name(), Color::BrightCyan),
        plain(" "@),
        tinted("("@ + decimal(len) + " deps)"@, Color::BrightBlack),
    ]
}

/// The note on the dependencies of a group that are not listed.
pub open spec fn more_spans(remaining: nat) -> Seq<SpanView> {
    seq![
        tinted("..."@, Color::BrightBlack),
        plain(" "@),
        tinted(decimal(remaining), Color::BrightBlack),
        plain(" more dependencies"@),
    ]
}

/// The part of a project's tree for the dependencies `deps` of one
/// ecosystem: the head, up to eight dependencies, and a note on the rest.
pub open spec fn group_block(deps: Seq<DepView>, ecosystem: Ecosystem, is_last: bool) -> Seq<
    SpanView,
> {
    line(tree_spans(group_head(ecosystem, deps.len()), is_last, 1)) + dependency_lines(
        deps,
        listed(deps.len()),
    ) + (if deps.len() > 8 {
        line(tree_spans(more_spans((deps.len() - 8) as nat), is_last, 2))
    } else {
        seq![]
    })
}

/// The parts of a project's tree for the first `n` of its groups. The last
/// group is the last item of the tree where no errors follow.
pub open spec fn group_blocks(deps: Seq<DepView>, groups: Seq<Ecosystem>, n: nat, no_errors: bool)
    -> Seq<SpanView>
    decreases n,
{
    if n == 0 {
        seq![]
    } else {
        group_blocks(deps, groups, (n - 1) as nat, no_errors) + group_block(
            of_ecosystem(deps, groups[n - 1]),
            groups[n - 1],
            n == groups.len() && no_errors,
        )
    }
}

/// The lines of the first `n` errors of a project.
pub open spec fn error_lines(errors: Seq<Seq<char>>, n: nat) -> Seq<SpanView>
    decreases n,
{
    if n == 0 {
        seq![]
    } else {
        error_lines(errors, (n - 1) as nat) + line(
            tree_spans(seq![tinted(errors[n - 1], Color::BrightRed)], n == errors.len(), 2),
        )
    }
}

/// The part of a project's tree for its errors; nothing where it has none.
pub open spec fn error_block(errors: Seq<Seq<char>>) -> Seq<SpanView> {
    if errors.len() == 0 {
        seq![]
    } else {
        line(
            tree_spans(
                seq![
                    tinted("⚠️"@, Color::BrightRed),
                    plain(" "@),
                    plain(decimal(errors.len())),
                    plain(" Errors"@),
                ],
                true,
                1,
            ),
        ) + error_lines(errors, errors.len())
    }
}

/// The head of a project: its name and the number of its dependencies.
pub open spec fn project_head(report: ReportView) -> Seq<SpanView> {
    seq![
        plain("📂"@),
        plain(" "@),
        strong(shown_name(report.project_path), Color::BrightWhite),
        plain(" "@),
        tinted("("@ + decimal(report.dependencies.len()) + " deps)"@, Color::BrightBlack),
        plain(" dependencies"@),
    ]
}

/// The tree of one project: its head, its groups, its errors, and an empty
/// line unless it is the last project.
pub open spec fn project_block(report: ReportView, is_last: bool) -> Seq<SpanView> {
    line(tree_spans(project_head(report), is_last, 0)) + group_blocks(
        report.dependencies,
        groups_of(report.dependencies),
        groups_of(report.dependencies).len(),
        report.errors.len() == 0,
    ) + error_block(report.errors) + (if is_last {
        seq![]
    } else {
        line(seq![])
    })
}

/// The trees of the first `n` projects.
pub open spec fn project_blocks(reports: Seq<ReportView>, n: nat) -> Seq<SpanView>
    decreases n,
{
    if n == 0 {
        seq![]
    } else {
        project_blocks(reports, (n - 1) as nat) + project_block(
            reports[n - 1],
            n == reports.len(),
        )
    }
}

/// One tip.
pub open spec fn tip(what: Seq<char>, how: Seq<char>) -> Seq<SpanView> {
    line(
        seq![
            plain("  "@),
            tinted("•"@, Color::BrightBlack),
            plain(" "@),
            tinted(what, Color::BrightCyan),
            plain(": "@),
            tinted(how, Color::BrightWhite),
        ],
    )
}

/// The tips that close a summary with dependencies.
pub open spec fn tips() -> Seq<SpanView> {
    line(seq![plain("\n"@), strong("💡 Tips:"@, Color::BrightBlue)]) + tip(
        "Check for updates"@,
        "Run package manager update commands"@,
    ) + tip("Security scan"@, "Use tools like cargo audit, npm audit, or safety"@) + tip(
        "Clean unused deps"@,
        "Remove dependencies you're not using"@,
    )
}

/// The summary of a dependency scan.
///
/// Without reports it is a single headline. Else it holds the headline, the
/// box with the totals, the breakdown by ecosystem, the tree of each
/// project, and tips where any dependency was found.
pub open spec fn summary(reports: Seq<ReportView>) -> Seq<SpanView> {
    if reports.len() == 0 {
        line(header_spans("No dependency files found"@, "📦"@, Color::Yellow))
    } else {
        let dependencies = capped(dependencies_among(reports, reports.len()));
        let errors = capped(errors_among(reports, reports.len()));
        let ecosystems = named_ecosystems(reports).len();
        line(header_spans(title(ecosystems), "📦"@, Color::BrightMagenta)) + summary_spans(
            summary_items(reports.len(), dependencies, ecosystems, errors),
        ) + breakdown(reports) + line(section_spans("Project Details"@)) + project_blocks(
            reports,
            reports.len(),
        ) + (if dependencies > 0 {
            tips()
        } else {
            seq![]
        })
    }
}

fn extend(out: &mut Vec<Span>, more: Vec<Span>)
    ensures
        span_views(final(out)@) == span_views(old(out)@) + span_views(more@),
{
    let mut more = more;
    let ghost added = more@;
    let ghost before = out@;
    out.append(&mut more);
    assert(span_views(out@) =~= span_views(before) + span_views(added));
}

fn push_line(out: &mut Vec<Span>, spans: Vec<Span>)
    ensures
        span_views(final(out)@) == span_views(old(out)@) + line(span_views(spans@)),
{
    let ghost before = out@;
    let ghost added = spans@;
    extend(out, spans);
    let ghost middle = out@;
    out.push(Span::plain("\n"));
    assert(span_views(out@) =~= span_views(middle).push(plain("\n"@)));
    assert(span_views(out@) =~= span_views(before) + line(span_views(added)));
}

fn push_tree_line(out: &mut Vec<Span>, content: Vec<Span>, is_last: bool, level: usize)
    ensures
        span_views(final(out)@) == span_views(old(out)@) + line(
            tree_spans(span_views(content@), is_last, level as nat),
        ),
{
    push_line(out, tree_item(content, is_last, level));
}

fn count_dependencies(reports: &Vec<DependencyReport>) -> (n: usize)
    ensures
        n == capped(dependencies_among(report_views(reports@), reports.len() as nat)),
{
    let mut n: usize = 0;
    let mut i: usize = 0;
    while i < reports.len()
        invariant
            i <= reports.len(),
            n == capped(dependencies_among(report_views(reports@), i as nat)),
        decreases reports.len() - i,
    {
        assert(report_views(reports@)[i as int].dependencies.len() == reports@[i as int].dependencies.len());
        n = n.saturating_add(reports[i].dependencies.len());
        i += 1;
    }
    n
}

fn count_errors(reports: &Vec<DependencyReport>) -> (n: usize)
    ensures
        n == capped(errors_among(report_views(reports@), reports.len() as nat)),
{
    let mut n: usize = 0;
    let mut i: usize = 0;
    while i < reports.len()
        invariant
            i <= reports.len(),
            n == capped(errors_among(report_views(reports@), i as nat)),
        decreases reports.len() - i,
    {
        assert(report_views(reports@)[i as int].errors.len() == reports@[i as int].errors.len());
        n = n.saturating_add(reports[i].errors.len());
        i += 1;
    }
    n
}

/// The views of a sequence of borrowed dependencies.
pub open spec fn borrowed_views(deps: Seq<&Dependency>) -> Seq<DepView> {
    deps.map_values(|d: &Dependency| d@)
}

fn group_of<'a>(deps: &'a Vec<Dependency>, ecosystem: Ecosystem) -> (group: Vec<&'a Dependency>)
    ensures
        borrowed_views(group@) == of_ecosystem(dep_views(deps@), ecosystem),
{
    let ghost views = dep_views(deps@);
    let ghost wanted = |d: DepView| d.ecosystem == ecosystem;
    let mut group: Vec<&'a Dependency> = Vec::new();
    let mut i: usize = 0;
    assert(views.take(0).filter(wanted) =~= Seq::<DepView>::empty());
    assert(borrowed_views(group@) =~= Seq::<DepView>::empty());
    while i < deps.len()
        invariant
            i <= deps.len(),
            views == dep_views(deps@),
            wanted == (|d: DepView| d.ecosystem == ecosystem),
            borrowed_views(group@) == views.take(i as int).filter(wanted),
        decreases deps.len() - i,
    {
        proof {
            assert(views.take(i + 1) =~= views.take(i as int).push(views[i as int]));
            views.take(i as int).lemma_filter_push(views[i as int], wanted);
        }
        if deps[i].ecosystem == ecosystem {
            let ghost before = group@;
            group.push(&deps[i]);
            assert(borrowed_views(group@) =~= borrowed_views(before).push(deps@[i as int]@));
        }
        i += 1;
    }
    assert(views.take(deps.len() as int) =~= views);
    group
}

fn count_of(reports: &Vec<DependencyReport>, ecosystem: Ecosystem) -> (n: usize)
    ensures
        n == capped(dependencies_of(report_views(reports@), ecosystem, reports.len() as nat)),
{
    let mut n: usize = 0;
    let mut i: usize = 0;
    while i < reports.len()
        invariant
            i <= reports.len(),
            n == capped(dependencies_of(report_views(reports@), ecosystem, i as nat)),
        decreases reports.len() - i,
    {
        let group = group_of(&reports[i].dependencies, ecosystem);
        assert(report_views(reports@)[i as int].dependencies == dep_views(reports@[i as int].dependencies@));
        assert(borrowed_views(group@).len() == group.len());
        n = n.saturating_add(group.len());
        i += 1;
    }
    n
}

fn lists(ecosystems: &Vec<Ecosystem>, ecosystem: Ecosystem) -> (r: bool)
    ensures
        r == ecosystems@.contains(ecosystem),
{
    let mut i: usize = 0;
    while i < ecosystems.len()
        invariant
            i <= ecosystems.len(),
            forall|j: int| 0 <= j < i ==> ecosystems@[j] != ecosystem,
        decreases ecosystems.len() - i,
    {
        if ecosystems[i] == ecosystem {
            return true;
        }
        i += 1;
    }
    false
}

fn is_named(reports: &Vec<DependencyReport>, ecosystem: Ecosystem) -> (r: bool)
    ensures
        r == names(report_views(reports@), ecosystem),
{
    let ghost views = report_views(reports@);
    let mut i: usize = 0;
    while i < reports.len()
        invariant
            i <= reports.len(),
            views == report_views(reports@),
            forall|j: int| 0 <= j < i ==> !(#[trigger] views[j]).ecosystems.contains(ecosystem),
        decreases reports.len() - i,
    {
        assert(views[i as int].ecosystems == reports@[i as int].ecosystems@);
        if lists(&reports[i].ecosystems, ecosystem) {
            return true;
        }
        i += 1;
    }
    false
}

fn named(reports: &Vec<DependencyReport>) -> (r: Vec<Ecosystem>)
    ensures
        r@ == named_ecosystems(report_views(reports@)),
{
    let mut r: Vec<Ecosystem> = Vec::new();
    if is_named(reports, Ecosystem::Rust) {
        r.push(Ecosystem::Rust);
    }
    if is_named(reports, Ecosystem::NodeJs) {
        r.push(Ecosystem::NodeJs);
    }
    if is_named(reports, Ecosystem::Python) {
        r.push(Ecosystem::Python);
    }
    if is_named(reports, Ecosystem::Go) {
        r.push(Ecosystem::Go);
    }
    assert(r@ =~= named_ecosystems(report_views(reports@)));
    r
}

fn groups(deps: &Vec<Dependency>) -> (r: Vec<Ecosystem>)
    ensures
        r@ == groups_of(dep_views(deps@)),
{
    let mut r: Vec<Ecosystem> = Vec::new();
    let rust = group_of(deps, Ecosystem::Rust);
    assert(borrowed_views(rust@).len() == rust.len());
    if rust.len() > 0 {
        r.push(Ecosystem::Rust);
    }
    let node = group_of(deps, Ecosystem::NodeJs);
    assert(borrowed_views(node@).len() == node.len());
    if node.len() > 0 {
        r.push(Ecosystem::NodeJs);
    }
    let python = group_of(deps, Ecosystem::Python);
    assert(borrowed_views(python@).len() == python.len());
    if python.len() > 0 {
        r.push(Ecosystem::Python);
    }
    let go = group_of(deps, Ecosystem::Go);
    assert(borrowed_views(go@).len() == go.len());
    if go.len() > 0 {
        r.push(Ecosystem::Go);
    }
    assert(r@ =~= groups_of(dep_views(deps@)));
    r
}

fn mark_of(ecosystem: Ecosystem) -> (r: String)
    ensures
        r@ == ecosystem_mark(ecosystem),
{
    ecosystem_icon(ecosystem.to_string().as_str())
}

fn counted(n: usize, unit: &str) -> (r: String)
    ensures
        r@ == "("@ + decimal(n as nat) + unit@,
{
    let mut r = "(".to_owned();
    crate::text::push_decimal(&mut r, n);
    r.append(unit);
    r
}

fn push_breakdown(out: &mut Vec<Span>, reports: &Vec<DependencyReport>)
    ensures
        span_views(final(out)@) == span_views(old(out)@) + breakdown(report_views(reports@)),
{
    let ghost views = report_views(reports@);
    let ghost start = span_views(out@);
    let ecosystems = named(reports);
    if ecosystems.len() == 0 {
        assert(start + Seq::<SpanView>::empty() =~= start);
        return ;
    }
    push_line(out, section_divider("Ecosystem Breakdown"));
    let ghost base = span_views(out@);
    assert(base + breakdown_lines(views, ecosystems@, 0) =~= base);
    let mut i: usize = 0;
    while i < ecosystems.len()
        invariant
            i <= ecosystems.len(),
            views == report_views(reports@),
            span_views(out@) == base + breakdown_lines(views, ecosystems@, i as nat),
        decreases ecosystems.len() - i,
    {
        let ecosystem = ecosystems[i];
        let count = count_of(reports, ecosystem);
        let ghost before = span_views(out@);
        let mut spans: Vec<Span> = Vec::new();
        spans.push(Span::plain("  "));
        spans.push(Span::plain(mark_of(ecosystem).as_str()));
        spans.push(Span::plain(" "));
        spans.push(Span::strong(ecosystem.to_string().as_str(), Color::BrightCyan));
        spans.push(Span::plain(" "));
        spans.push(Span::strong(decimal_text(count).as_str(), Color::BrightWhite));
        spans.push(Span::plain(" dependencies"));
        push_line(out, spans);
        proof {
            let added = breakdown_line(ecosystem, count as nat);
            assert(line(span_views(spans@)) =~= added);
            assert(before + added =~= base + (breakdown_lines(views, ecosystems@, i as nat)
                + added));
        }
        i += 1;
    }
    assert(base + breakdown_lines(views, ecosystems@, ecosystems.len() as nat) =~= start + (line(
        section_spans("Ecosystem Breakdown"@),
    ) + breakdown_lines(views, ecosystems@, ecosystems.len() as nat)));
}

fn shorten(path: &str) -> (r: String)
    ensures
        r@ == shortened(path@),
{
    let v = chars_of(path);
    if v.len() > 35 {
        let tail = slice_of(&v, v.len() - 32, v.len());
        assert(tail@ =~= v@.skip(v.len() - 32));
        let mut r = "...".to_owned();
        r.append(text_of(&tail).as_str());
        r
    } else {
        path.to_owned()
    }
}

fn dependency_item(d: &Dependency) -> (r: Vec<Span>)
    ensures
        span_views(r@) == dependency_spans(d@),
{
    let mut r = version_display(d.name.as_str(), d.version.as_str(), None);
    let ghost name = span_views(r@);
    r.push(Span::plain(" "));
    assert(span_views(r@) =~= name + seq![plain(" "@)]);
    let label = match d.dependency_type {
        DependencyType::Runtime => badge("prod", BadgeType::Runtime),
        DependencyType::Development => badge("dev", BadgeType::Dev),
        DependencyType::Build => badge("build", BadgeType::Build),
        DependencyType::Optional => badge("opt", BadgeType::Optional),
    };
    extend(&mut r, label);
    let ghost first = span_views(r@);
    r.push(Span::plain(" "));
    assert(span_views(r@) =~= first + seq![plain(" "@)]);
    extend(&mut r, file_path(shorten(d.source_file.as_str()).as_str()));
    assert(span_views(r@) =~= dependency_spans(d@));
    r
}

fn push_group(out: &mut Vec<Span>, deps: &Vec<&Dependency>, ecosystem: Ecosystem, is_last: bool)
    ensures
        span_views(final(out)@) == span_views(old(out)@) + group_block(
            borrowed_views(deps@),
            ecosystem,
            is_last,
        ),
{
    let ghost views = borrowed_views(deps@);
    let ghost start = span_views(out@);
    let len: usize = deps.len();
    let mut head: Vec<Span> = Vec::new();
    head.push(Span::plain(mark_of(ecosystem).as_str()));
    head.push(Span::plain(" "));
    head.push(Span::tinted(ecosystem.to_string().as_str(), Color::BrightCyan));
    head.push(Span::plain(" "));
    head.push(Span::tinted(counted(len, " deps)").as_str(), Color::BrightBlack));
    assert(span_views(head@) =~= group_head(ecosystem, len as nat));
    push_tree_line(out, head, is_last, 1);
    let ghost base = span_views(out@);
    let shown: usize = if len > 8 {
        8
    } else {
        len
    };
    assert(base + dependency_lines(views, 0) =~= base);
    let mut i: usize = 0;
    while i < shown
        invariant
            i <= shown <= len,
            len == deps.len(),
            views == borrowed_views(deps@),
            span_views(out@) == base + dependency_lines(views, i as nat),
        decreases shown - i,
    {
        let ghost before = span_views(out@);
        let item = dependency_item(deps[i]);
        let last_item = i + 1 == len && len <= 8;
        push_tree_line(out, item, last_item, 2);
        proof {
            assert(views[i as int] == deps@[i as int]@);
            let added = line(tree_spans(dependency_spans(views[i as int]), last_item, 2));
            assert(before + added =~= base + (dependency_lines(views, i as nat) + added));
        }
        i += 1;
    }
    let ghost listed_lines = dependency_lines(views, listed(len as nat));
    if len > 8 {
        let ghost before = span_views(out@);
        let mut more: Vec<Span> = Vec::new();
        more.push(Span::tinted("...", Color::BrightBlack));
        more.push(Span::plain(" "));
        more.push(Span::tinted(decimal_text(len - 8).as_str(), Color::BrightBlack));
        more.push(Span::plain(" more dependencies"));
        assert(span_views(more@) =~= more_spans((len - 8) as nat));
        push_tree_line(out, more, is_last, 2);
        assert(span_views(out@) =~= start + group_block(views, ecosystem, is_last));
    } else {
        assert(span_views(out@) =~= start + group_block(views, ecosystem, is_last));
    }
}

fn push_errors(out: &mut Vec<Span>, errors: &Vec<String>)
    ensures
        span_views(final(out)@) == span_views(old(out)@) + error_block(texts(errors@)),
{
    let ghost views = texts(errors@);
    let ghost start = span_views(out@);
    if errors.len() == 0 {
        assert(start + Seq::<SpanView>::empty() =~= start);
        return ;
    }
    let mut head: Vec<Span> = Vec::new();
    head.push(Span::tinted("⚠️", Color::BrightRed));
    head.push(Span::plain(" "));
    head.push(Span::plain(decimal_text(errors.len()).as_str()));
    head.push(Span::plain(" Errors"));
    push_tree_line(out, head, true, 1);
    let ghost base = span_views(out@);
    assert(base + error_lines(views, 0) =~= base);
    let mut i: usize = 0;
    while i < errors.len()
        invariant
            i <= errors.len(),
            views == texts(errors@),
            span_views(out@) == base + error_lines(views, i as nat),
        decreases errors.len() - i,
    {
        let ghost before = span_views(out@);
        let mut item: Vec<Span> = Vec::new();
        item.push(Span::tinted(errors[i].as_str(), Color::BrightRed));
        let last_item = i + 1 == errors.len();
        push_tree_line(out, item, last_item, 2);
        proof {
            assert(views[i as int] == errors@[i as int]@);
            let added = line(tree_spans(seq![tinted(views[i as int], Color::BrightRed)], last_item, 2));
            assert(span_views(item@) =~= seq![tinted(views[i as int], Color::BrightRed)]);
            assert(before + added =~= base + (error_lines(views, i as nat) + added));
        }
        i += 1;
    }
    assert(span_views(out@) =~= start + error_block(views));
}

fn push_project(out: &mut Vec<Span>, report: &DependencyReport, is_last: bool)
    ensures
        span_views(final(out)@) == span_views(old(out)@) + project_block(report@, is_last),
{
    let ghost view = report@;
    let ghost start = span_views(out@);
    let name = match file_name(report.project_path.as_str()) {
        Some(name) => name,
        None => "unknown".to_owned(),
    };
    let mut head: Vec<Span> = Vec::new();
    head.push(Span::plain("📂"));
    head.push(Span::plain(" "));
    head.push(Span::strong(name.as_str(), Color::BrightWhite));
    head.push(Span::plain(" "));
    head.push(
        Span::tinted(counted(report.dependencies.len(), " deps)").as_str(), Color::BrightBlack),
    );
    head.push(Span::plain(" dependencies"));
    assert(span_views(head@) =~= project_head(view));
    push_tree_line(out, head, is_last, 0);
    let ghost base = span_views(out@);
    let present = groups(&report.dependencies);
    let no_errors = report.errors.len() == 0;
    assert(base + group_blocks(view.dependencies, present@, 0, no_errors) =~= base);
    let mut i: usize = 0;
    while i < present.len()
        invariant
            i <= present.len(),
            view == report@,
            no_errors == (view.errors.len() == 0),
            span_views(out@) == base + group_blocks(view.dependencies, present@, i as nat, no_errors),
        decreases present.len() - i,
    {
        let ghost before = span_views(out@);
        let ecosystem = present[i];
        let group = group_of(&report.dependencies, ecosystem);
        let last_group = i + 1 == present.len() && no_errors;
        push_group(out, &group, ecosystem, last_group);
        proof {
            let added = group_block(of_ecosystem(view.dependencies, ecosystem), ecosystem, last_group);
            assert(before + added =~= base + (group_blocks(
                view.dependencies,
                present@,
                i as nat,
                no_errors,
            ) + added));
        }
        i += 1;
    }
    push_errors(out, &report.errors);
    if !is_last {
        let nothing: Vec<Span> = Vec::new();
        assert(span_views(nothing@) =~= Seq::<SpanView>::empty());
        push_line(out, nothing);
    }
    assert(span_views(out@) =~= start + project_block(view, is_last));
}

fn push_tip(out: &mut Vec<Span>, what: &str, how: &str)
    ensures
        span_views(final(out)@) == span_views(old(out)@) + tip(what@, how@),
{
    let mut spans: Vec<Span> = Vec::new();
    spans.push(Span::plain("  "));
    spans.push(Span::tinted("•", Color::BrightBlack));
    spans.push(Span::plain(" "));
    spans.push(Span::tinted(what, Color::BrightCyan));
    spans.push(Span::plain(": "));
    spans.push(Span::tinted(how, Color::BrightWhite));
    let ghost before = span_views(out@);
    push_line(out, spans);
    assert(span_views(out@) =~= before + tip(what@, how@));
}

fn push_tips(out: &mut Vec<Span>)
    ensures
        span_views(final(out)@) == span_views(old(out)@) + tips(),
{
    let ghost start = span_views(out@);
    let mut head: Vec<Span> = Vec::new();
    head.push(Span::plain("\n"));
    head.push(Span::strong("💡 Tips:", Color::BrightBlue));
    push_line(out, head);
    push_tip(out, "Check for updates", "Run package manager update commands");
    push_tip(out, "Security scan", "Use tools like cargo audit, npm audit, or safety");
    push_tip(out, "Clean unused deps", "Remove dependencies you're not using");
    assert(span_views(out@) =~= start + tips());
}

/// Lays out the summary of a dependency scan.
pub fn display_results(reports: &Vec<DependencyReport>) -> (out: Vec<Span>)
    ensures
        span_views(out@) == summary(report_views(reports@)),
{
    let ghost views = report_views(reports@);
    let mut out: Vec<Span> = Vec::new();
    assert(span_views(out@) =~= Seq::<SpanView>::empty());
    if reports.len() == 0 {
        push_line(&mut out, header("No dependency files found", "📦", Color::Yellow));
        assert(span_views(out@) =~= summary(views));
        return out;
    }
    let dependencies = count_dependencies(reports);
    let errors = count_errors(reports);
    let ecosystems = named(reports).len();

    let mut title = "Dependency Analysis (".to_owned();
    crate::text::push_decimal(&mut title, ecosystems);
    title.append(" ecosystems)");
    push_line(&mut out, header(title.as_str(), "📦", Color::BrightMagenta));

    let error_text = if errors > 0 {
        let mut t = decimal_text(errors);
        t.append(" ❌");
        t
    } else {
        "0".to_owned()
    };
    let items: [(&str, String); 4] = [
        ("Total Projects", decimal_text(reports.len())),
        ("Total Dependencies", decimal_text(dependencies)),
        ("Ecosystems", decimal_text(ecosystems)),
        ("Errors", error_text),
    ];
    let boxed = summary_box(items.as_slice());
    assert(crate::utils::display::item_views(items@) =~= summary_items(
        reports.len() as nat,
        dependencies as nat,
        ecosystems as nat,
        errors as nat,
    ));
    extend(&mut out, boxed);

    push_breakdown(&mut out, reports);
    push_line(&mut out, section_divider("Project Details"));

    let ghost base = span_views(out@);
    assert(base + project_blocks(views, 0) =~= base);
    let mut i: usize = 0;
    while i < reports.len()
        invariant
            i <= reports.len(),
            views == report_views(reports@),
            span_views(out@) == base + project_blocks(views, i as nat),
        decreases reports.len() - i,
    {
        let ghost before = span_views(out@);
        let is_last = i + 1 == reports.len();
        push_project(&mut out, &reports[i], is_last);
        proof {
            assert(views[i as int] == reports@[i as int]@);
            let added = project_block(views[i as int], is_last);
            assert(before + added =~= base + (project_blocks(views, i as nat) + added));
        }
        i += 1;
    }
    if dependencies > 0 {
        push_tips(&mut out);
    }
    assert(span_views(out@) =~= summary(views));
    out
}

} // verus!
