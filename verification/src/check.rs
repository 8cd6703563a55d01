//! The check record and the kinds of check.

use crate::predicate::{administrator_holds, binary_exists, binary_holds, content_holds,
    file_contains_content, file_exists, file_line_contains, group_holds, line_holds,
    presence_holds, readable, service_holds, service_up, text_read, user_exists, user_holds,
    user_in_group, user_is_administrator};
use crate::probe::{answers, CheckError, Observation, ObservationView, Probe, ProbeView};
use crate::reconcile::{account_listed, user_kept, user_listed};
use crate::text::split_lines;
use vstd::prelude::*;
use vstd::std_specs::cmp::PartialEqSpecImpl;

verus! {

/// One assertion about the machine, with the parameters it needs.
///
/// Two kinds carry a witness beside the desired state: what held before any
/// remediation began (`initial_admin`, `does_exist`). A witness is given when
/// the check is made; it is never observed.
#[derive(Debug)]
pub enum CheckKind {
    FileExists { file_path: String, should_exist: bool },
    FileLineContains { file_path: String, line: i32, line_content: String, should_contain: bool },
    FileContainsContent {
        file_path: String,
        content: String,
        whitespace_matters: bool,
        should_contain: bool,
    },
    ServiceUp { service_name: String, should_be_up: bool },
    BinaryExists { binary_name: String, should_exist: bool },
    UserInGroup { user: String, group: String, should_be: bool },
    UserIsAdministrator { user: String, should_be: bool, initial_admin: bool },
    User { user: String, should_exist: bool, does_exist: bool, is_primary_user: bool },
}

/// The mathematical value of a [`CheckKind`]: texts are sequences of
/// characters, the line number is an integer.
pub ghost enum CheckKindView {
    FileExists { file_path: Seq<char>, should_exist: bool },
    FileLineContains {
        file_path: Seq<char>,
        line: int,
        line_content: Seq<char>,
        should_contain: bool,
    },
    FileContainsContent {
        file_path: Seq<char>,
        content: Seq<char>,
        whitespace_matters: bool,
        should_contain: bool,
    },
    ServiceUp { service_name: Seq<char>, should_be_up: bool },
    BinaryExists { binary_name: Seq<char>, should_exist: bool },
    UserInGroup { user: Seq<char>, group: Seq<char>, should_be: bool },
    UserIsAdministrator { user: Seq<char>, should_be: bool, initial_admin: bool },
    User { user: Seq<char>, should_exist: bool, does_exist: bool, is_primary_user: bool },
}

impl View for CheckKind {
    type V = CheckKindView;

    open spec fn view(&self) -> CheckKindView {
        match *self {
            CheckKind::FileExists { file_path, should_exist } => CheckKindView::FileExists {
                file_path: file_path@,
                should_exist,
            },
            CheckKind::FileLineContains {
                file_path,
                line,
                line_content,
                should_contain,
            } => CheckKindView::FileLineContains {
                file_path: file_path@,
                line: line as int,
                line_content: line_content@,
                should_contain,
            },
            CheckKind::FileContainsContent {
                file_path,
                content,
                whitespace_matters,
                should_contain,
            } => CheckKindView::FileContainsContent {
                file_path: file_path@,
                content: content@,
                whitespace_matters,
                should_contain,
            },
            CheckKind::ServiceUp { service_name, should_be_up } => CheckKindView::ServiceUp {
                service_name: service_name@,
                should_be_up,
            },
            CheckKind::BinaryExists { binary_name, should_exist } => CheckKindView::BinaryExists {
                binary_name: binary_name@,
                should_exist,
            },
            CheckKind::UserInGroup { user, group, should_be } => CheckKindView::UserInGroup {
                user: user@,
                group: group@,
                should_be,
            },
            CheckKind::UserIsAdministrator {
                user,
                should_be,
                initial_admin,
            } => CheckKindView::UserIsAdministrator { user: user@, should_be, initial_admin },
            CheckKind::User {
                user,
                should_exist,
                does_exist,
                is_primary_user,
            } => CheckKindView::User { user: user@, should_exist, does_exist, is_primary_user },
        }
    }
}

impl CheckKindView {
    /// What has to be observed before a check of this kind can be decided.
    pub open spec fn probe(self) -> ProbeView {
        match self {
            CheckKindView::FileExists { file_path, .. } => ProbeView::PathPresence { file_path },
            CheckKindView::FileLineContains { file_path, .. } => ProbeView::FileContent {
                file_path,
            },
            CheckKindView::FileContainsContent { file_path, .. } => ProbeView::FileContent {
                file_path,
            },
            CheckKindView::ServiceUp { service_name, .. } => ProbeView::ServiceState {
                service_name,
            },
            CheckKindView::BinaryExists { binary_name, .. } => ProbeView::BinaryLocation {
                binary_name,
            },
            CheckKindView::UserInGroup { user, .. } => ProbeView::Identity { user },
            CheckKindView::UserIsAdministrator { user, .. } => ProbeView::Identity { user },
            CheckKindView::User { .. } => ProbeView::UserDirectory,
        }
    }

    /// Whether a check of this kind is met, given what was observed.
    ///
    /// A file that could not be read counts as empty. A tool that could not
    /// be started decides nothing, and neither does an observation of
    /// another form than the kind's probe asks for.
    pub open spec fn verdict(self, seen: ObservationView) -> Result<bool, CheckError> {
        match (self, seen) {
            (
                CheckKindView::FileExists { should_exist, .. },
                ObservationView::Presence(present),
            ) => Ok(presence_holds(present, should_exist)),
            (
                CheckKindView::FileLineContains { line, line_content, should_contain, .. },
                ObservationView::FileText(content),
            ) => Ok(line_holds(text_read(content), line, line_content, should_contain)),
            (
                CheckKindView::FileContainsContent {
                    content,
                    whitespace_matters,
                    should_contain,
                    ..
                },
                ObservationView::FileText(text),
            ) => Ok(content_holds(text_read(text), content, whitespace_matters, should_contain)),
            (
                CheckKindView::ServiceUp { should_be_up, .. },
                ObservationView::ToolOutput(Some(output)),
            ) => Ok(service_holds(output, should_be_up)),
            (
                CheckKindView::BinaryExists { binary_name, should_exist },
                ObservationView::ToolOutput(Some(output)),
            ) => Ok(binary_holds(output, binary_name, should_exist)),
            (
                CheckKindView::UserInGroup { group, should_be, .. },
                ObservationView::ToolOutput(Some(output)),
            ) => Ok(group_holds(output, group, should_be)),
            (
                CheckKindView::UserIsAdministrator { should_be, initial_admin, .. },
                ObservationView::ToolOutput(Some(output)),
            ) => Ok(administrator_holds(output, should_be, initial_admin)),
            (
                CheckKindView::User { user, should_exist, does_exist, is_primary_user },
                ObservationView::Accounts(accounts),
            ) => Ok(user_holds(accounts, user, should_exist, does_exist, is_primary_user)),
            (
                CheckKindView::ServiceUp { .. }
                | CheckKindView::BinaryExists { .. }
                | CheckKindView::UserInGroup { .. }
                | CheckKindView::UserIsAdministrator { .. },
                ObservationView::ToolOutput(None),
            ) => Err(CheckError::ProbeSpawnError),
            _ => Err(CheckError::UnexpectedObservation),
        }
    }

    /// The diagnostic of a user check: whether the account exists now,
    /// wherever the first rule of the check does not settle it. Every other
    /// kind, and every other observation, has none.
    pub open spec fn trace(self, seen: ObservationView) -> Option<bool> {
        match (self, seen) {
            (
                CheckKindView::User { user, should_exist, does_exist, is_primary_user },
                ObservationView::Accounts(accounts),
            ) => if user_kept(
                should_exist,
                is_primary_user,
                does_exist,
                account_listed(accounts, user),
            ) {
                None
            } else {
                Some(account_listed(accounts, user))
            },
            _ => None,
        }
    }
}

impl DeepView for CheckKind {
    type V = CheckKindView;

    open spec fn deep_view(&self) -> CheckKindView {
        self@
    }
}

/// One scoring unit: a kind of check, what it is worth, the messages shown
/// for it, and whether it was met when it was last evaluated.
#[derive(Debug)]
pub struct Check {
    pub points: i32,
    pub message: String,
    pub penalty_message: String,
    pub completed: bool,
    pub kind: CheckKind,
}

/// The mathematical value of a [`Check`].
pub ghost struct CheckView {
    pub points: int,
    pub message: Seq<char>,
    pub penalty_message: Seq<char>,
    pub completed: bool,
    pub kind: CheckKindView,
}

impl View for Check {
    type V = CheckView;

    open spec fn view(&self) -> CheckView {
        CheckView {
            points: self.points as int,
            message: self.message@,
            penalty_message: self.penalty_message@,
            completed: self.completed,
            kind: self.kind@,
        }
    }
}

impl DeepView for Check {
    type V = CheckView;

    open spec fn deep_view(&self) -> CheckView {
        self@
    }
}

impl Clone for CheckKind {
    fn clone(&self) -> (copy: Self)
        ensures
            copy == *self,
    {
        match self {
            CheckKind::FileExists { file_path, should_exist } => CheckKind::FileExists {
                file_path: file_path.clone(),
                should_exist: *should_exist,
            },
            CheckKind::FileLineContains {
                file_path,
                line,
                line_content,
                should_contain,
            } => CheckKind::FileLineContains {
                file_path: file_path.clone(),
                line: *line,
                line_content: line_content.clone(),
                should_contain: *should_contain,
            },
            CheckKind::FileContainsContent {
                file_path,
                content,
                whitespace_matters,
                should_contain,
            } => CheckKind::FileContainsContent {
                file_path: file_path.clone(),
                content: content.clone(),
                whitespace_matters: *whitespace_matters,
                should_contain: *should_contain,
            },
            CheckKind::ServiceUp { service_name, should_be_up } => CheckKind::ServiceUp {
                service_name: service_name.clone(),
                should_be_up: *should_be_up,
            },
            CheckKind::BinaryExists { binary_name, should_exist } => CheckKind::BinaryExists {
                binary_name: binary_name.clone(),
                should_exist: *should_exist,
            },
            CheckKind::UserInGroup { user, group, should_be } => CheckKind::UserInGroup {
                user: user.clone(),
                group: group.clone(),
                should_be: *should_be,
            },
            CheckKind::UserIsAdministrator {
                user,
                should_be,
                initial_admin,
            } => CheckKind::UserIsAdministrator {
                user: user.clone(),
                should_be: *should_be,
                initial_admin: *initial_admin,
            },
            CheckKind::User {
                user,
                should_exist,
                does_exist,
                is_primary_user,
            } => CheckKind::User {
                user: user.clone(),
                should_exist: *should_exist,
                does_exist: *does_exist,
                is_primary_user: *is_primary_user,
            },
        }
    }
}

impl Clone for Check {
    fn clone(&self) -> (copy: Self)
        ensures
            copy == *self,
    {
        Check {
            points: self.points,
            message: self.message.clone(),
            penalty_message: self.penalty_message.clone(),
            completed: self.completed,
            kind: self.kind.clone(),
        }
    }
}

impl PartialEq for CheckKind {
    fn eq(&self, other: &Self) -> (equal: bool) {
        match (self, other) {
            (
                CheckKind::FileExists { file_path: p, should_exist: s },
                CheckKind::FileExists { file_path: q, should_exist: t },
            ) => *p == *q && *s == *t,
            (
                CheckKind::FileLineContains {
                    file_path: p,
                    line: l,
                    line_content: c,
                    should_contain: s,
                },
                CheckKind::FileLineContains {
                    file_path: q,
                    line: m,
                    line_content: d,
                    should_contain: t,
                },
            ) => *p == *q && *l == *m && *c == *d && *s == *t,
            (
                CheckKind::FileContainsContent {
                    file_path: p,
                    content: c,
                    whitespace_matters: w,
                    should_contain: s,
                },
                CheckKind::FileContainsContent {
                    file_path: q,
                    content: d,
                    whitespace_matters: x,
                    should_contain: t,
                },
            ) => *p == *q && *c == *d && *w == *x && *s == *t,
            (
                CheckKind::ServiceUp { service_name: n, should_be_up: s },
                CheckKind::ServiceUp { service_name: o, should_be_up: t },
            ) => *n == *o && *s == *t,
            (
                CheckKind::BinaryExists { binary_name: n, should_exist: s },
                CheckKind::BinaryExists { binary_name: o, should_exist: t },
            ) => *n == *o && *s == *t,
            (
                CheckKind::UserInGroup { user: u, group: g, should_be: s },
                CheckKind::UserInGroup { user: v, group: h, should_be: t },
            ) => *u == *v && *g == *h && *s == *t,
            (
                CheckKind::UserIsAdministrator { user: u, should_be: s, initial_admin: i },
                CheckKind::UserIsAdministrator { user: v, should_be: t, initial_admin: j },
            ) => *u == *v && *s == *t && *i == *j,
            (
                CheckKind::User { user: u, should_exist: s, does_exist: e, is_primary_user: i },
                CheckKind::User { user: v, should_exist: t, does_exist: f, is_primary_user: j },
            ) => *u == *v && *s == *t && *e == *f && *i == *j,
            _ => false,
        }
    }
}

/// Two kinds are equal where their values are.
impl PartialEqSpecImpl for CheckKind {
    open spec fn obeys_eq_spec() -> bool {
        true
    }

    open spec fn eq_spec(&self, other: &CheckKind) -> bool {
        self@ == other@
    }
}

impl PartialEq for Check {
    fn eq(&self, other: &Self) -> (equal: bool) {
        self.points == other.points && self.message == other.message && self.penalty_message
            == other.penalty_message && self.completed == other.completed && self.kind
            == other.kind
    }
}

/// Two checks are equal where their values are.
impl PartialEqSpecImpl for Check {
    open spec fn obeys_eq_spec() -> bool {
        true
    }

    open spec fn eq_spec(&self, other: &Check) -> bool {
        self@ == other@
    }
}

impl CheckKind {
    /// What has to be observed before this check can be decided.
    pub fn probe(&self) -> (probe: Probe)
        ensures
            probe@ == self@.probe(),
    {
        match self {
            CheckKind::FileExists { file_path, .. } => Probe::PathPresence {
                file_path: file_path.clone(),
            },
            CheckKind::FileLineContains { file_path, .. } => Probe::FileContent {
                file_path: file_path.clone(),
            },
            CheckKind::FileContainsContent { file_path, .. } => Probe::FileContent {
                file_path: file_path.clone(),
            },
            CheckKind::ServiceUp { service_name, .. } => Probe::ServiceState {
                service_name: service_name.clone(),
            },
            CheckKind::BinaryExists { binary_name, .. } => Probe::BinaryLocation {
                binary_name: binary_name.clone(),
            },
            CheckKind::UserInGroup { user, .. } => Probe::Identity { user: user.clone() },
            CheckKind::UserIsAdministrator { user, .. } => Probe::Identity { user: user.clone() },
            CheckKind::User { .. } => Probe::UserDirectory,
        }
    }

    /// Decides this check from what was observed.
    pub fn evaluate(&self, seen: &Observation) -> (outcome: Result<bool, CheckError>)
        ensures
            outcome == self@.verdict(seen@),
    {
        match (self, seen) {
            (CheckKind::FileExists { should_exist, .. }, Observation::Presence(present)) => Ok(
                file_exists(*present, *should_exist),
            ),
            (
                CheckKind::FileLineContains { line, line_content, should_contain, .. },
                Observation::FileText(content),
            ) => Ok(
                file_line_contains(
                    readable(content),
                    *line,
                    line_content.as_str(),
                    *should_contain,
                ),
            ),
            (
                CheckKind::FileContainsContent {
                    content,
                    whitespace_matters,
                    should_contain,
                    ..
                },
                Observation::FileText(text),
            ) => Ok(
                file_contains_content(
                    readable(text),
                    content.as_str(),
                    *whitespace_matters,
                    *should_contain,
                ),
            ),
            (
                CheckKind::ServiceUp { should_be_up, .. },
                Observation::ToolOutput(Some(output)),
            ) => Ok(service_up(output.as_str(), *should_be_up)),
            (
                CheckKind::BinaryExists { binary_name, should_exist },
                Observation::ToolOutput(Some(output)),
            ) => Ok(binary_exists(output.as_str(), binary_name.as_str(), *should_exist)),
            (
                CheckKind::UserInGroup { group, should_be, .. },
                Observation::ToolOutput(Some(output)),
            ) => Ok(user_in_group(output.as_str(), group.as_str(), *should_be)),
            (
                CheckKind::UserIsAdministrator { should_be, initial_admin, .. },
                Observation::ToolOutput(Some(output)),
            ) => Ok(user_is_administrator(output.as_str(), *should_be, *initial_admin)),
            (
                CheckKind::User { user, should_exist, does_exist, is_primary_user },
                Observation::Accounts(accounts),
            ) => Ok(user_exists(accounts, user, *should_exist, *does_exist, *is_primary_user)),
            (
                CheckKind::ServiceUp { .. }
                | CheckKind::BinaryExists { .. }
                | CheckKind::UserInGroup { .. }
                | CheckKind::UserIsAdministrator { .. },
                Observation::ToolOutput(None),
            ) => Err(CheckError::ProbeSpawnError),
            _ => Err(CheckError::UnexpectedObservation),
        }
    }

    /// The diagnostic that a caller may print for this check: for a user
    /// check that its first rule does not settle, whether the account exists
    /// now.
    pub fn trace(&self, seen: &Observation) -> (report: Option<bool>)
        ensures
            report == self@.trace(seen@),
    {
        match (self, seen) {
            (
                CheckKind::User { user, should_exist, does_exist, is_primary_user },
                Observation::Accounts(accounts),
            ) => {
                let exists_now = user_listed(accounts, user);
                if *should_exist && *does_exist && exists_now && !*is_primary_user {
                    None
                } else {
                    Some(exists_now)
                }
            },
            _ => None,
        }
    }
}

impl CheckView {
    /// The check as one evaluation leaves it: `completed` holds the verdict
    /// on what was observed, whatever it held before, and nothing else has
    /// changed. Where the observation decides nothing, the check is as it
    /// was.
    pub open spec fn after(self, seen: ObservationView) -> CheckView {
        match self.kind.verdict(seen) {
            Ok(completed) => CheckView { completed, ..self },
            Err(_) => self,
        }
    }
}

impl Check {
    /// A check with the given fields.
    pub fn new(
        points: i32,
        message: String,
        penalty_message: String,
        completed: bool,
        kind: CheckKind,
    ) -> (check: Check)
        ensures
            check == (Check { points, message, penalty_message, completed, kind }),
    {
        Check { points, message, penalty_message, completed, kind }
    }

    /// Evaluates the check against what was observed for it.
    ///
    /// Where the observation decides the check, the verdict is written into
    /// `completed` and a copy of the updated check is returned. Where it does
    /// not, the check stays as it was and the error says why.
    pub fn run_check(&mut self, seen: &Observation) -> (outcome: Result<Check, CheckError>)
        ensures
            final(self)@ == old(self)@.after(seen@),
            final(self).points == old(self).points,
            final(self).message == old(self).message,
            final(self).penalty_message == old(self).penalty_message,
            final(self).kind == old(self).kind,
            match outcome {
                Ok(copy) => old(self).kind@.verdict(seen@) is Ok && copy == *final(self),
                Err(error) => old(self).kind@.verdict(seen@) == Err::<bool, CheckError>(error)
                    && *final(self) == *old(self),
            },
    {
        match self.kind.evaluate(seen) {
            Ok(completed) => {
                self.completed = completed;
                Ok(self.clone())
            },
            Err(error) => Err(error),
        }
    }
}

/// An observation decides a check exactly where it answers the check's
/// probe and the probe could be carried out. A tool that could not be started
/// is reported as such; an observation of another form is reported as
/// unexpected.
pub proof fn lemma_verdict_is_owed(kind: CheckKindView, seen: ObservationView)
    ensures
        kind.verdict(seen) is Ok <==> answers(kind.probe(), seen) && seen
            != ObservationView::ToolOutput(None),
        kind.verdict(seen) == Err::<bool, CheckError>(CheckError::ProbeSpawnError) <==> answers(
            kind.probe(),
            seen,
        ) && seen == ObservationView::ToolOutput(None),
        kind.verdict(seen) == Err::<bool, CheckError>(CheckError::UnexpectedObservation)
            <==> !answers(kind.probe(), seen),
{
}

/// Evaluating a check twice against the same observation leaves it as
/// evaluating it once does, and decides it the same way both times.
pub proof fn lemma_run_check_idempotent(check: CheckView, seen: ObservationView)
    ensures
        check.after(seen).kind.verdict(seen) == check.kind.verdict(seen),
        check.after(seen).after(seen) == check.after(seen),
{
}

/// `completed` holds the latest verdict only: an evaluation that decides
/// the check leaves it the same whatever was observed before.
pub proof fn lemma_completed_keeps_no_history(
    check: CheckView,
    earlier: ObservationView,
    latest: ObservationView,
)
    requires
        check.kind.verdict(latest) is Ok,
    ensures
        check.after(earlier).after(latest) == check.after(latest),
        check.kind.verdict(latest) == Ok::<bool, CheckError>(check.after(latest).completed),
{
}

/// An evaluation writes `completed` and nothing else.
pub proof fn lemma_run_check_writes_completed_only(check: CheckView, seen: ObservationView)
    ensures
        check.after(seen) == (CheckView { completed: check.after(seen).completed, ..check }),
{
}

/// With the file's presence held fixed, a check on it that asks for the
/// opposite comes out the opposite way.
pub proof fn lemma_file_exists_toggle(check: CheckView, present: bool)
    requires
        check.kind is FileExists,
    ensures
        ({
            let opposite = CheckView {
                kind: CheckKindView::FileExists {
                    file_path: check.kind->FileExists_file_path,
                    should_exist: !check.kind->FileExists_should_exist,
                },
                ..check
            };
            let seen = ObservationView::Presence(present);
            opposite.after(seen).completed == !check.after(seen).completed
        }),
{
}

/// A check on a line that the file does not have fails, whatever content it
/// asks for and whether or not the line should hold it: on a line number
/// beyond the file's last line, and on one below 1.
pub proof fn lemma_line_out_of_range_fails(check: CheckView, content: Option<Seq<char>>)
    requires
        check.kind is FileLineContains,
        check.kind->line < 1 || check.kind->line > split_lines(text_read(content)).len(),
    ensures
        !check.after(ObservationView::FileText(content)).completed,
{
}

} // verus!
