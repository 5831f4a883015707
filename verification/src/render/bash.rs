//! The script renderer: a manifest becomes a shell script that applies the
//! steps in order, skips what its guard finds satisfied, stops at the first
//! failure, and can report its progress in marker lines.

use super::{RenderError, Renderer};
use crate::manifest::{tengu_manifest, tengu_step_count, Manifest, ManifestView};
use crate::progress::{marker_wire, EventView, MarkerAction, ProgressEvent};
use crate::steps::{AnyStep, Step, StepView};
use crate::text::{escape_single_quotes, quote_escaped};
use vstd::prelude::*;
use vstd::string::*;

verus! {

/// Mathematical model of a part of a script.
pub ghost enum PartView {
    /// Shell text that does the script's work or steers it.
    Shell(Seq<char>),
    /// The definition of a color variable.
    Color(Seq<char>),
    /// The emission of a progress marker.
    Marker(EventView),
}

/// A part of a script. Each part becomes one or more whole lines.
#[derive(Debug, Clone, PartialEq, Eq)]
pub enum ScriptPart {
    /// Shell text that does the script's work or steers it.
    Shell(String),
    /// The definition of a color variable.
    Color(String),
    /// The emission of a progress marker.
    Marker(ProgressEvent),
}

impl View for ScriptPart {
    type V = PartView;

    open spec fn view(&self) -> PartView {
        match self {
            ScriptPart::Shell(text) => PartView::Shell(text@),
            ScriptPart::Color(text) => PartView::Color(text@),
            ScriptPart::Marker(event) => PartView::Marker(event@),
        }
    }
}

/// Models of a list of parts, in order.
pub open spec fn parts_view(parts: Seq<ScriptPart>) -> Seq<PartView> {
    Seq::new(parts.len(), |i: int| parts[i]@)
}

/// The color variable in which a marker of this action is printed.
pub open spec fn action_color(action: MarkerAction) -> Seq<char> {
    match action {
        MarkerAction::Start => "BLUE"@,
        MarkerAction::Done => "GREEN"@,
        MarkerAction::Skip => "YELLOW"@,
        MarkerAction::Fail => "RED"@,
        MarkerAction::Complete => "GREEN"@,
    }
}

/// The command that prints a marker on a line of its own. The marker
/// stands in single quotes, so the shell prints it letter by letter; with
/// colors the line is wrapped in the action's color and the reset code.
pub open spec fn marker_command(e: EventView, color: bool) -> Seq<char> {
    if color {
        "printf '%b%s%b\\n' \"$"@ + action_color(e.action) + "\" '"@ + quote_escaped(marker_wire(e))
            + "' \"$NC\""@
    } else {
        "printf '%s\\n' '"@ + quote_escaped(marker_wire(e)) + "'"@
    }
}

/// The text of one part.
pub open spec fn part_text(part: PartView, color: bool) -> Seq<char> {
    match part {
        PartView::Shell(text) => text,
        PartView::Color(text) => text,
        PartView::Marker(e) => marker_command(e, color),
    }
}

/// The text of a script: its parts in order, each ended by a line feed.
pub open spec fn script_text(parts: Seq<PartView>, color: bool) -> Seq<char>
    decreases parts.len(),
{
    if parts.len() == 0 {
        Seq::empty()
    } else {
        script_text(parts.drop_last(), color) + part_text(parts.last(), color) + "\n"@
    }
}

/// How every script begins: the interpreter line and the color variables.
pub open spec fn header_parts() -> Seq<PartView> {
    seq![
        PartView::Shell("#!/usr/bin/env bash"@),
        PartView::Color("RED='\\033[0;31m'"@),
        PartView::Color("GREEN='\\033[0;32m'"@),
        PartView::Color("YELLOW='\\033[1;33m'"@),
        PartView::Color("BLUE='\\033[0;34m'"@),
        PartView::Color("NC='\\033[0m'"@),
    ]
}

/// A marker of the step with the given index.
pub open spec fn step_marker(action: MarkerAction, index: nat, step: StepView) -> PartView {
    PartView::Marker(EventView { action, index, description: step.description() })
}

/// The commands as shell parts, in order.
pub open spec fn shell_parts(commands: Seq<Seq<char>>) -> Seq<PartView> {
    Seq::new(commands.len(), |i: int| PartView::Shell(commands[i]))
}

/// How a step's commands are run: in a subshell that stops at the first
/// command that fails. Where the subshell fails, the failure is reported
/// and the script exits with status 1; else the step is reported as done.
pub open spec fn run_parts(index: nat, step: StepView) -> Seq<PartView> {
    seq![PartView::Shell("("@), PartView::Shell("set -e"@)] + shell_parts(step.bash()) + seq![
        PartView::Shell(")"@),
        PartView::Shell("if [ $? -ne 0 ]; then"@),
        step_marker(MarkerAction::Fail, index, step),
        PartView::Shell("exit 1"@),
        PartView::Shell("fi"@),
        step_marker(MarkerAction::Done, index, step),
    ]
}

/// The opening of a guarded step: where the guard succeeds the step is
/// reported as skipped and its commands are passed over.
pub open spec fn guard_parts(index: nat, step: StepView, guard: Seq<char>) -> Seq<PartView> {
    seq![
        PartView::Shell("if "@ + guard + "; then"@),
        PartView::Shell(":"@),
        step_marker(MarkerAction::Skip, index, step),
        PartView::Shell("else"@),
    ]
}

/// What follows a step's start marker: the commands, behind the guard
/// where the step has one.
pub open spec fn guarded_run_parts(index: nat, step: StepView) -> Seq<PartView> {
    match step.check() {
        Some(guard) => guard_parts(index, step, guard) + run_parts(index, step) + seq![
            PartView::Shell("fi"@),
        ],
        None => run_parts(index, step),
    }
}

/// The parts of one step: the start marker, then the guarded commands.
pub open spec fn step_parts(index: nat, step: StepView) -> Seq<PartView> {
    seq![step_marker(MarkerAction::Start, index, step)] + guarded_run_parts(index, step)
}

/// The parts of the steps in order; the step at position `i` has the
/// index `i + 1`.
pub open spec fn steps_parts(steps: Seq<StepView>) -> Seq<PartView>
    decreases steps.len(),
{
    if steps.len() == 0 {
        Seq::empty()
    } else {
        steps_parts(steps.drop_last()) + step_parts(steps.len(), steps.last())
    }
}

/// The marker that ends a script: it carries the number of steps.
pub open spec fn complete_marker(count: nat) -> PartView {
    PartView::Marker(
        EventView {
            action: MarkerAction::Complete,
            index: count,
            description: "Provisioning complete"@,
        },
    )
}

/// Every part that a script for this manifest can hold.
pub open spec fn all_parts(m: ManifestView) -> Seq<PartView> {
    header_parts() + steps_parts(m.steps) + seq![complete_marker(m.steps.len())]
}

/// Whether a part stands in a script: shell text always, markers in a
/// verbose script, color variables in a verbose script with colors.
pub open spec fn part_kept(part: PartView, verbose: bool, color: bool) -> bool {
    match part {
        PartView::Shell(_) => true,
        PartView::Color(_) => verbose && color,
        PartView::Marker(_) => verbose,
    }
}

/// `part_kept` for fixed switches.
pub open spec fn keeper(verbose: bool, color: bool) -> spec_fn(PartView) -> bool {
    |part: PartView| part_kept(part, verbose, color)
}

/// The parts of the script for a manifest under the two switches: all
/// parts, in order, but for those that the switches leave out.
pub open spec fn script_parts(m: ManifestView, verbose: bool, color: bool) -> Seq<PartView> {
    all_parts(m).filter(keeper(verbose, color))
}

/// The markers among the parts, in order.
pub open spec fn markers_of(parts: Seq<PartView>) -> Seq<PartView> {
    parts.filter(|part: PartView| part is Marker)
}

/// The shell text among the parts, in order.
pub open spec fn shell_of(parts: Seq<PartView>) -> Seq<PartView> {
    parts.filter(|part: PartView| part is Shell)
}

/// Renders a manifest as a shell script.
#[derive(Debug, Clone, Copy, PartialEq, Eq, Structural)]
pub struct BashRenderer {
    /// Whether the script reports its progress in marker lines.
    pub verbose: bool,
    /// Whether the script defines color variables and prints its markers
    /// in color.
    pub color: bool,
}

impl ScriptPart {
    fn keep(&self, verbose: bool, color: bool) -> (r: bool)
        ensures
            r == part_kept(self@, verbose, color),
    {
        match self {
            ScriptPart::Shell(_) => true,
            ScriptPart::Color(_) => verbose && color,
            ScriptPart::Marker(_) => verbose,
        }
    }

    /// The text of this part.
    pub fn text(&self, color: bool) -> (r: String)
        ensures
            r@ == part_text(self@, color),
    {
        match self {
            ScriptPart::Shell(text) => text.clone(),
            ScriptPart::Color(text) => text.clone(),
            ScriptPart::Marker(event) => {
                let wire = escape_single_quotes(event.wire_text().as_str());
                if color {
                    let mut out = String::from_str("printf '%b%s%b\\n' \"$");
                    out.append(
                        match event.action {
                            MarkerAction::Start => "BLUE",
                            MarkerAction::Done => "GREEN",
                            MarkerAction::Skip => "YELLOW",
                            MarkerAction::Fail => "RED",
                            MarkerAction::Complete => "GREEN",
                        },
                    );
                    out.append("\" '");
                    out.append(wire.as_str());
                    out.append("' \"$NC\"");
                    out
                } else {
                    let mut out = String::from_str("printf '%s\\n' '");
                    out.append(wire.as_str());
                    out.append("'");
                    out
                }
            },
        }
    }
}

/// The parts of a script while it is built: `parts` holds what is kept of
/// `all`.
struct Draft {
    parts: Vec<ScriptPart>,
    all: Ghost<Seq<PartView>>,
    verbose: bool,
    color: bool,
}

impl Draft {
    spec fn wf(&self) -> bool {
        parts_view(self.parts@) == self.all@.filter(keeper(self.verbose, self.color))
    }

    fn new(verbose: bool, color: bool) -> (r: Self)
        ensures
            r.wf(),
            r.all@ == Seq::<PartView>::empty(),
            r.verbose == verbose,
            r.color == color,
    {
        let r = Draft { parts: Vec::new(), all: Ghost(Seq::empty()), verbose, color };
        proof {
            reveal(Seq::filter);
            assert(parts_view(r.parts@) =~= Seq::empty());
        }
        r
    }

    fn put(&mut self, part: ScriptPart)
        requires
            old(self).wf(),
        ensures
            final(self).wf(),
            final(self).all@ == old(self).all@.push(part@),
            final(self).verbose == old(self).verbose,
            final(self).color == old(self).color,
    {
        proof {
            self.all@.lemma_filter_push(part@, keeper(self.verbose, self.color));
        }
        let ghost before = parts_view(self.parts@);
        if part.keep(self.verbose, self.color) {
            self.parts.push(part);
            assert(parts_view(self.parts@) =~= before.push(part@));
        }
        self.all = Ghost(self.all@.push(part@));
    }

    fn shell(&mut self, text: &str)
        requires
            old(self).wf(),
        ensures
            final(self).wf(),
            final(self).all@ == old(self).all@.push(PartView::Shell(text@)),
            final(self).verbose == old(self).verbose,
            final(self).color == old(self).color,
    {
        self.put(ScriptPart::Shell(String::from_str(text)));
    }

    fn color(&mut self, text: &str)
        requires
            old(self).wf(),
        ensures
            final(self).wf(),
            final(self).all@ == old(self).all@.push(PartView::Color(text@)),
            final(self).verbose == old(self).verbose,
            final(self).color == old(self).color,
    {
        self.put(ScriptPart::Color(String::from_str(text)));
    }

    fn marker(&mut self, action: MarkerAction, index: usize, description: &str)
        requires
            old(self).wf(),
        ensures
            final(self).wf(),
            final(self).all@ == old(self).all@.push(
                PartView::Marker(
                    EventView { action, index: index as nat, description: description@ },
                ),
            ),
            final(self).verbose == old(self).verbose,
            final(self).color == old(self).color,
    {
        self.put(
            ScriptPart::Marker(
                ProgressEvent { action, index, description: String::from_str(description) },
            ),
        );
    }

    fn run(&mut self, index: usize, step: &AnyStep)
        requires
            old(self).wf(),
        ensures
            final(self).wf(),
            final(self).all@ == old(self).all@ + run_parts(index as nat, step@),
            final(self).verbose == old(self).verbose,
            final(self).color == old(self).color,
    {
        let ghost before = self.all@;
        let description = step.description();
        let commands = step.to_bash();
        let ghost lines = commands.deep_view();
        self.shell("(");
        self.shell("set -e");
        let ghost head = before + seq![PartView::Shell("("@), PartView::Shell("set -e"@)];
        assert(self.all@ =~= head + shell_parts(lines.take(0)));
        let mut i: usize = 0;
        while i < commands.len()
            invariant
                i <= commands.len(),
                lines == commands.deep_view(),
                self.wf(),
                self.all@ == head + shell_parts(lines.take(i as int)),
                self.verbose == old(self).verbose,
                self.color == old(self).color,
            decreases commands.len() - i,
        {
            self.shell(commands[i].as_str());
            assert(self.all@ =~= head + shell_parts(lines.take(i + 1)));
            i += 1;
        }
        assert(lines.take(commands.len() as int) =~= lines);
        self.shell(")");
        self.shell("if [ $? -ne 0 ]; then");
        self.marker(MarkerAction::Fail, index, description);
        self.shell("exit 1");
        self.shell("fi");
        self.marker(MarkerAction::Done, index, description);
        assert(self.all@ =~= before + run_parts(index as nat, step@));
    }

    fn step(&mut self, index: usize, step: &AnyStep)
        requires
            old(self).wf(),
        ensures
            final(self).wf(),
            final(self).all@ == old(self).all@ + step_parts(index as nat, step@),
            final(self).verbose == old(self).verbose,
            final(self).color == old(self).color,
    {
        let ghost before = self.all@;
        let description = step.description();
        self.marker(MarkerAction::Start, index, description);
        match step.check_command() {
            Some(guard) => {
                let mut test = String::from_str("if ");
                test.append(guard.as_str());
                test.append("; then");
                self.shell(test.as_str());
                self.shell(":");
                self.marker(MarkerAction::Skip, index, description);
                self.shell("else");
                self.run(index, step);
                self.shell("fi");
                assert(self.all@ =~= before + step_parts(index as nat, step@));
            },
            None => {
                self.run(index, step);
                assert(self.all@ =~= before + step_parts(index as nat, step@));
            },
        }
    }
}

impl BashRenderer {
    /// A renderer for quiet scripts; colors are on for when the script is
    /// made verbose.
    pub fn new() -> (r: Self)
        ensures
            r == (BashRenderer { verbose: false, color: true }),
    {
        BashRenderer { verbose: false, color: true }
    }

    /// Sets whether the script reports its progress in marker lines.
    pub fn verbose(self, verbose: bool) -> (r: Self)
        ensures
            r == (BashRenderer { verbose, color: self.color }),
    {
        BashRenderer { verbose, color: self.color }
    }

    /// Sets whether the script defines and uses color variables.
    pub fn color(self, color: bool) -> (r: Self)
        ensures
            r == (BashRenderer { verbose: self.verbose, color }),
    {
        BashRenderer { verbose: self.verbose, color }
    }

    /// The parts of the script for a manifest, in order.
    pub fn plan(&self, manifest: &Manifest) -> (r: Vec<ScriptPart>)
        ensures
            parts_view(r@) == script_parts(manifest@, self.verbose, self.color),
    {
        let ghost steps = manifest@.steps;
        let mut draft = Draft::new(self.verbose, self.color);
        draft.shell("#!/usr/bin/env bash");
        draft.color("RED='\\033[0;31m'");
        draft.color("GREEN='\\033[0;32m'");
        draft.color("YELLOW='\\033[1;33m'");
        draft.color("BLUE='\\033[0;34m'");
        draft.color("NC='\\033[0m'");
        assert(draft.all@ =~= header_parts() + steps_parts(steps.take(0)));
        let mut i: usize = 0;
        while i < manifest.steps.len()
            invariant
                i <= manifest.steps.len(),
                steps == manifest@.steps,
                draft.wf(),
                draft.all@ == header_parts() + steps_parts(steps.take(i as int)),
                draft.verbose == self.verbose,
                draft.color == self.color,
            decreases manifest.steps.len() - i,
        {
            draft.step(i + 1, &manifest.steps[i]);
            proof {
                assert(steps.take(i + 1).drop_last() =~= steps.take(i as int));
                assert(steps.take(i + 1).last() == manifest.steps[i as int]@);
                assert(draft.all@ =~= header_parts() + steps_parts(steps.take(i + 1)));
            }
            i += 1;
        }
        assert(steps.take(manifest.steps.len() as int) =~= steps);
        draft.marker(MarkerAction::Complete, manifest.steps.len(), "Provisioning complete");
        assert(draft.all@ =~= all_parts(manifest@));
        draft.parts
    }

    /// The script for a manifest.
    pub fn script(&self, manifest: &Manifest) -> (r: String)
        ensures
            r@ == script_text(script_parts(manifest@, self.verbose, self.color), self.color),
    {
        let parts = self.plan(manifest);
        let ghost views = parts_view(parts@);
        let mut out = String::new();
        let mut i: usize = 0;
        while i < parts.len()
            invariant
                i <= parts.len(),
                views == parts_view(parts@),
                out@ == script_text(views.take(i as int), self.color),
            decreases parts.len() - i,
        {
            out.append(parts[i].text(self.color).as_str());
            out.append("\n");
            proof {
                assert(views.take(i + 1).drop_last() =~= views.take(i as int));
                assert(views.take(i + 1).last() == parts[i as int]@);
            }
            i += 1;
        }
        assert(views.take(parts.len() as int) =~= views);
        out
    }
}

impl Default for BashRenderer {
    fn default() -> (r: Self)
        ensures
            r == (BashRenderer { verbose: false, color: true }),
    {
        BashRenderer::new()
    }
}

impl Renderer for BashRenderer {
    type Output = String;

    type Error = RenderError;

    /// Renders the manifest as a script. This never fails.
    fn render(&self, manifest: &Manifest) -> (r: Result<String, RenderError>)
        ensures
            r matches Ok(script) && script@ == script_text(
                script_parts(manifest@, self.verbose, self.color),
                self.color,
            ),
    {
        Ok(self.script(manifest))
    }
}

/// Whether a part is a completion marker.
pub open spec fn is_complete_marker(part: PartView) -> bool {
    part matches PartView::Marker(e) && e.action is Complete
}

/// The completion markers among the parts, in order.
pub open spec fn complete_markers_of(parts: Seq<PartView>) -> Seq<PartView> {
    parts.filter(|part: PartView| is_complete_marker(part))
}

proof fn lemma_filter_agree<A>(s: Seq<A>, p: spec_fn(A) -> bool, q: spec_fn(A) -> bool)
    requires
        forall|x: A| #[trigger] p(x) == q(x),
    ensures
        s.filter(p) == s.filter(q),
    decreases s.len(),
{
    reveal(Seq::filter);
    if s.len() > 0 {
        lemma_filter_agree(s.drop_last(), p, q);
    }
}

proof fn lemma_filter_within<A>(s: Seq<A>, p: spec_fn(A) -> bool, q: spec_fn(A) -> bool)
    requires
        forall|x: A| #[trigger] q(x) ==> p(x),
    ensures
        s.filter(p).filter(q) == s.filter(q),
    decreases s.len(),
{
    reveal(Seq::filter);
    if s.len() > 0 {
        lemma_filter_within(s.drop_last(), p, q);
        if p(s.last()) {
            s.drop_last().filter(p).lemma_filter_push(s.last(), q);
        }
    }
}

proof fn lemma_steps_hold_no_complete_marker(steps: Seq<StepView>)
    ensures
        forall|i: int|
            0 <= i < steps_parts(steps).len() ==> !is_complete_marker(
                #[trigger] steps_parts(steps)[i],
            ),
    decreases steps.len(),
{
    if steps.len() > 0 {
        lemma_steps_hold_no_complete_marker(steps.drop_last());
        let before = steps_parts(steps.drop_last());
        let block = step_parts(steps.len(), steps.last());
        assert forall|i: int| 0 <= i < block.len() implies !is_complete_marker(
            #[trigger] block[i],
        ) by {}
        assert forall|i: int| 0 <= i < steps_parts(steps).len() implies !is_complete_marker(
            #[trigger] steps_parts(steps)[i],
        ) by {
            if i < before.len() {
                assert(steps_parts(steps)[i] == before[i]);
            } else {
                assert(steps_parts(steps)[i] == block[i - before.len()]);
            }
        }
    }
}

proof fn lemma_body_holds_no_complete_marker(m: ManifestView)
    ensures
        complete_markers_of(body_parts(m)) == Seq::<PartView>::empty(),
{
    let complete = |part: PartView| is_complete_marker(part);
    let head = header_parts() + steps_parts(m.steps);
    lemma_steps_hold_no_complete_marker(m.steps);
    assert forall|i: int| 0 <= i < head.len() implies !complete(#[trigger] head[i]) by {
        if i >= header_parts().len() {
            assert(head[i] == steps_parts(m.steps)[i - header_parts().len()]);
        } else {
            assert(head[i] == header_parts()[i]);
        }
    }
    head.lemma_all_neg_filter_empty(complete);
}

/// All parts but the completion marker.
pub open spec fn body_parts(m: ManifestView) -> Seq<PartView> {
    header_parts() + steps_parts(m.steps)
}

proof fn lemma_all_parts_end(m: ManifestView)
    ensures
        all_parts(m) == body_parts(m).push(complete_marker(m.steps.len())),
{
    let body = body_parts(m);
    let last = complete_marker(m.steps.len());
    assert(body + seq![last] =~= body.push(last));
}

proof fn lemma_verbose_parts_end(m: ManifestView, color: bool)
    ensures
        script_parts(m, true, color) == body_parts(m).filter(keeper(true, color)).push(
            complete_marker(m.steps.len()),
        ),
{
    lemma_all_parts_end(m);
    body_parts(m).lemma_filter_push(complete_marker(m.steps.len()), keeper(true, color));
}

proof fn lemma_complete_markers_of_all(m: ManifestView)
    ensures
        complete_markers_of(all_parts(m)) == seq![complete_marker(m.steps.len())],
{
    let complete = |part: PartView| is_complete_marker(part);
    let last = complete_marker(m.steps.len());
    assert(complete_markers_of(all_parts(m)) == body_parts(m).filter(complete).push(last)) by {
        lemma_all_parts_end(m);
        body_parts(m).lemma_filter_push(last, complete);
    }
    assert(body_parts(m).filter(complete) == Seq::<PartView>::empty()) by {
        lemma_body_holds_no_complete_marker(m);
    }
}

/// In a verbose script the only completion marker is the last part, and
/// the count that it carries is the number of the manifest's steps.
pub proof fn lemma_complete_marker_counts_steps(m: ManifestView, color: bool)
    ensures
        complete_markers_of(script_parts(m, true, color)) == seq![complete_marker(m.steps.len())],
        script_parts(m, true, color).len() > 0,
        script_parts(m, true, color).last() == complete_marker(m.steps.len()),
{
    assert(script_parts(m, true, color).len() > 0 && script_parts(m, true, color).last()
        == complete_marker(m.steps.len())) by {
        lemma_verbose_parts_end(m, color);
    }
    assert(complete_markers_of(script_parts(m, true, color)) == complete_markers_of(all_parts(m)))
        by {
        lemma_filter_within(
            all_parts(m),
            keeper(true, color),
            |part: PartView| is_complete_marker(part),
        );
    }
    lemma_complete_markers_of_all(m);
}

/// The script that a driver uploads for a configuration ends in a
/// completion marker whose count is the number of steps of every manifest
/// assembled for that configuration, or for any other.
pub proof fn lemma_installation_script_count(c: crate::config::ConfigView, color: bool)
    ensures
        complete_markers_of(script_parts(tengu_manifest(c), true, color)) == seq![
            complete_marker(tengu_step_count()),
        ],
        tengu_manifest(c).steps.len() == tengu_step_count(),
{
    crate::manifest::lemma_tengu_step_count(c);
    lemma_complete_marker_counts_steps(tengu_manifest(c), color);
}

/// Without colors a script holds no definition of a color variable, while
/// a verbose script keeps every marker: the same ones, in the same order,
/// as with colors.
pub proof fn lemma_colorless_script(m: ManifestView, verbose: bool)
    ensures
        forall|i: int|
            0 <= i < script_parts(m, verbose, false).len() ==> !(#[trigger] script_parts(
                m,
                verbose,
                false,
            )[i] is Color),
        markers_of(script_parts(m, true, false)) == markers_of(all_parts(m)),
        markers_of(script_parts(m, true, false)) == markers_of(script_parts(m, true, true)),
        markers_of(script_parts(m, true, false)).len() > 0,
{
    let marker = |part: PartView| part is Marker;
    assert forall|i: int| 0 <= i < script_parts(m, verbose, false).len() implies !(
    #[trigger] script_parts(m, verbose, false)[i] is Color) by {
        all_parts(m).lemma_filter_pred(keeper(verbose, false), i);
    }
    lemma_filter_within(all_parts(m), keeper(true, false), marker);
    lemma_filter_within(all_parts(m), keeper(true, true), marker);
    let head = header_parts() + steps_parts(m.steps);
    let last = complete_marker(m.steps.len());
    assert(all_parts(m) =~= head.push(last));
    head.lemma_filter_push(last, marker);
}

/// A script that is not verbose holds no part that is a marker, and its
/// shell text is that of the verbose script, part by part: the quiet
/// script is the verbose script without its markers and color
/// definitions. This speaks of the script's parts; a configured text, such
/// as a description or a command, may itself hold the letters of a marker.
pub proof fn lemma_quiet_script(m: ManifestView, color: bool)
    ensures
        forall|i: int|
            0 <= i < script_parts(m, false, color).len() ==> !(#[trigger] script_parts(
                m,
                false,
                color,
            )[i] is Marker),
        script_parts(m, false, color) == shell_of(all_parts(m)),
        script_parts(m, false, color) == shell_of(script_parts(m, true, color)),
{
    let shell = |part: PartView| part is Shell;
    assert forall|i: int| 0 <= i < script_parts(m, false, color).len() implies !(
    #[trigger] script_parts(m, false, color)[i] is Marker) by {
        all_parts(m).lemma_filter_pred(keeper(false, color), i);
    }
    lemma_filter_agree(all_parts(m), keeper(false, color), shell);
    lemma_filter_within(all_parts(m), keeper(true, color), shell);
}

/// Whether a part is a start marker.
pub open spec fn is_start_marker(part: PartView) -> bool {
    part matches PartView::Marker(e) && e.action is Start
}

/// The start markers among the parts, in order.
pub open spec fn start_markers_of(parts: Seq<PartView>) -> Seq<PartView> {
    parts.filter(|part: PartView| is_start_marker(part))
}

/// One start marker for each step, in the steps' order, numbered from one.
pub open spec fn step_starts(steps: Seq<StepView>) -> Seq<PartView> {
    Seq::new(steps.len(), |i: int| step_marker(MarkerAction::Start, (i + 1) as nat, steps[i]))
}

proof fn lemma_no_start_marker(parts: Seq<PartView>)
    requires
        forall|i: int| 0 <= i < parts.len() ==> !is_start_marker(#[trigger] parts[i]),
    ensures
        start_markers_of(parts) == Seq::<PartView>::empty(),
{
    let start = |part: PartView| is_start_marker(part);
    assert forall|i: int| 0 <= i < parts.len() implies !start(#[trigger] parts[i]) by {}
    parts.lemma_all_neg_filter_empty(start);
}

proof fn lemma_guarded_run_has_no_start(index: nat, step: StepView)
    ensures
        start_markers_of(guarded_run_parts(index, step)) == Seq::<PartView>::empty(),
{
    let rest = guarded_run_parts(index, step);
    assert forall|i: int| 0 <= i < rest.len() implies !is_start_marker(#[trigger] rest[i]) by {}
    lemma_no_start_marker(rest);
}

proof fn lemma_start_alone(head: PartView)
    requires
        is_start_marker(head),
    ensures
        start_markers_of(seq![head]) == seq![head],
{
    let start = |part: PartView| is_start_marker(part);
    reveal(Seq::filter);
    assert(seq![head].drop_last() =~= Seq::<PartView>::empty());
    assert(Seq::<PartView>::empty().push(head) =~= seq![head]);
}

proof fn lemma_step_has_one_start(index: nat, step: StepView)
    ensures
        start_markers_of(step_parts(index, step)) == seq![
            step_marker(MarkerAction::Start, index, step),
        ],
{
    let start = |part: PartView| is_start_marker(part);
    let head = step_marker(MarkerAction::Start, index, step);
    let rest = guarded_run_parts(index, step);
    lemma_guarded_run_has_no_start(index, step);
    lemma_start_alone(head);
    Seq::filter_distributes_over_add(seq![head], rest, start);
    assert(seq![head] + Seq::<PartView>::empty() =~= seq![head]);
}

proof fn lemma_steps_start_in_order(steps: Seq<StepView>)
    ensures
        start_markers_of(steps_parts(steps)) == step_starts(steps),
    decreases steps.len(),
{
    let start = |part: PartView| is_start_marker(part);
    if steps.len() == 0 {
        reveal(Seq::filter);
        assert(start_markers_of(steps_parts(steps)) =~= step_starts(steps));
    } else {
        let before = steps.drop_last();
        lemma_steps_start_in_order(before);
        lemma_step_has_one_start(steps.len(), steps.last());
        Seq::filter_distributes_over_add(
            steps_parts(before),
            step_parts(steps.len(), steps.last()),
            start,
        );
        assert(step_starts(before) + seq![
            step_marker(MarkerAction::Start, steps.len(), steps.last()),
        ] =~= step_starts(steps));
    }
}

/// A verbose script starts each step of the manifest once, in the
/// manifest's order, under the step's 1-based index and description.
pub proof fn lemma_script_starts_every_step(m: ManifestView, color: bool)
    ensures
        start_markers_of(script_parts(m, true, color)) == step_starts(m.steps),
{
    let start = |part: PartView| is_start_marker(part);
    assert(start_markers_of(script_parts(m, true, color)) == start_markers_of(all_parts(m))) by {
        lemma_filter_within(all_parts(m), keeper(true, color), start);
    }
    assert(start_markers_of(all_parts(m)) == start_markers_of(steps_parts(m.steps))) by {
        let tail = seq![complete_marker(m.steps.len())];
        Seq::filter_distributes_over_add(header_parts() + steps_parts(m.steps), tail, start);
        Seq::filter_distributes_over_add(header_parts(), steps_parts(m.steps), start);
        lemma_no_start_marker(header_parts());
        lemma_no_start_marker(tail);
        assert(Seq::<PartView>::empty() + start_markers_of(steps_parts(m.steps))
            + Seq::<PartView>::empty() =~= start_markers_of(steps_parts(m.steps)));
    }
    lemma_steps_start_in_order(m.steps);
}

} // verus!
