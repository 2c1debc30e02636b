//! The shortcut registrar: which global hotkey toggles the window.
//!
//! Registering a hotkey is the host's work and may fail, for a
//! combination that is malformed or one that another program holds. The
//! registrar decides what the host tries and in which order, so that a
//! failed attempt always ends with the default combination armed again.
//! The host performs each action in turn and reports how a `Register` went
//! by calling `registered` or `failed`.

use std::str::FromStr;
use vstd::prelude::*;
use crate::text::same_text;

verus! {

/// The combination that toggles the window where no other is set.
pub const DEFAULT_TOGGLE_SHORTCUT: &'static str = "Shift+Super+T";

/// What the error for a refused combination starts with.
pub const INVALID_SHORTCUT_PREFIX: &'static str = "invalid shortcut: ";

/// What the hotkey parser makes of a combination: nothing where it is well
/// formed, the parser's message where it is not.
pub uninterp spec fn shortcut_parse_error(text: Seq<char>) -> Option<Seq<char>>;

/// `HotKey::from_str` of `global_hotkey`, the parser that the host's
/// registration runs on a combination before anything else. The result is
/// the parse error's message, or nothing for a combination that parses. The
/// empty combination never parses: it is a single empty token, which names
/// no key.
#[verifier::external_body]
fn parse_error(text: &str) -> (r: Option<String>)
    ensures
        r matches Some(message) ==> shortcut_parse_error(text@) == Some(message@),
        r is None ==> shortcut_parse_error(text@) is None,
        text@.len() == 0 ==> r is Some,
{
    match global_hotkey::hotkey::HotKey::from_str(text) {
        Ok(_) => None,
        Err(error) => Some(error.to_string()),
    }
}

/// Who asked for a combination.
#[derive(Clone, Copy, Debug, PartialEq, Eq, Structural)]
pub enum Origin {
    /// The combination was read from the preference store at startup. A
    /// failure is not reported to anyone.
    Startup,
    /// The user set the combination. A failure is reported.
    User,
}

/// One thing for the host to do about the hotkey.
#[derive(Debug, PartialEq, Eq)]
pub enum ShortcutAction {
    /// Drop every registered combination.
    UnregisterAll,
    /// Register the combination as the toggle trigger, then report the
    /// outcome with `registered` or `failed`.
    Register(String),
    /// Write the combination to the preference store and flush the store.
    Persist(String),
    /// Answer the user's request.
    Reply(Result<(), String>),
}

/// A `ShortcutAction` with its texts as characters.
pub enum ActionModel {
    UnregisterAll,
    Register(Seq<char>),
    Persist(Seq<char>),
    Reply(Result<(), Seq<char>>),
}

impl View for ShortcutAction {
    type V = ActionModel;

    open spec fn view(&self) -> ActionModel {
        match self {
            ShortcutAction::UnregisterAll => ActionModel::UnregisterAll,
            ShortcutAction::Register(text) => ActionModel::Register(text@),
            ShortcutAction::Persist(text) => ActionModel::Persist(text@),
            ShortcutAction::Reply(Ok(_)) => ActionModel::Reply(Ok(())),
            ShortcutAction::Reply(Err(message)) => ActionModel::Reply(Err(message@)),
        }
    }
}

/// The actions of a list, each as its model.
pub open spec fn action_views(actions: Seq<ShortcutAction>) -> Seq<ActionModel> {
    actions.map_values(|action: ShortcutAction| action@)
}

/// What the registrar waits for.
pub enum PhaseModel {
    /// Nothing: no registration is under way.
    Idle,
    /// The outcome of registering the requested combination.
    Trying { binding: Seq<char>, origin: Origin },
    /// The outcome of registering the default combination after a
    /// failure, with the error that the user is owed, if any.
    FallingBack { reply: Option<Seq<char>> },
}

/// The registrar's state: the combination that is armed, if any, and what
/// the registrar waits for.
pub struct RegistrarModel {
    pub active: Option<Seq<char>>,
    pub phase: PhaseModel,
}

enum Phase {
    Idle,
    Trying { binding: String, origin: Origin },
    FallingBack { reply: Option<String> },
}

/// The shortcut registrar. At most one combination is armed at a time.
pub struct ShortcutRegistrar {
    active: Option<String>,
    phase: Phase,
}

/// An optional text as its characters.
pub open spec fn text_view(text: Option<String>) -> Option<Seq<char>> {
    match text {
        Some(s) => Some(s@),
        None => None,
    }
}

spec fn phase_view(phase: Phase) -> PhaseModel {
    match phase {
        Phase::Idle => PhaseModel::Idle,
        Phase::Trying { binding, origin } => PhaseModel::Trying { binding: binding@, origin },
        Phase::FallingBack { reply } => PhaseModel::FallingBack { reply: text_view(reply) },
    }
}

impl View for ShortcutRegistrar {
    type V = RegistrarModel;

    closed spec fn view(&self) -> RegistrarModel {
        RegistrarModel { active: text_view(self.active), phase: phase_view(self.phase) }
    }
}

/// The error that a failure with the message `error` owes the one who
/// asked: the message behind the prefix for the user, none at startup.
pub open spec fn reply_for(origin: Origin, error: Seq<char>) -> Option<Seq<char>> {
    match origin {
        Origin::User => Some(INVALID_SHORTCUT_PREFIX@ + error),
        Origin::Startup => None,
    }
}

/// Whether a failure to arm `binding` is followed by arming the default:
/// always for the user's request, and at startup unless the default itself
/// is what failed.
pub open spec fn falls_back(binding: Seq<char>, origin: Origin) -> bool {
    origin == Origin::User || binding != DEFAULT_TOGGLE_SHORTCUT@
}

/// What follows a failure to arm `binding`.
pub open spec fn after_failure(binding: Seq<char>, origin: Origin, error: Seq<char>) -> (
    PhaseModel,
    Seq<ActionModel>,
) {
    if falls_back(binding, origin) {
        (
            PhaseModel::FallingBack { reply: reply_for(origin, error) },
            seq![ActionModel::Register(DEFAULT_TOGGLE_SHORTCUT@)],
        )
    } else {
        (PhaseModel::Idle, seq![])
    }
}

/// The answer that ends a fallback.
pub open spec fn reply_actions(reply: Option<Seq<char>>) -> Seq<ActionModel> {
    match reply {
        Some(message) => seq![ActionModel::Reply(Err(message))],
        None => seq![],
    }
}

/// A request for `binding`, whose parse gave `syntax_error`. Whatever was
/// armed is dropped first. A combination that parses is tried; one that
/// does not is a failure on the spot.
pub open spec fn request_step(
    binding: Seq<char>,
    origin: Origin,
    syntax_error: Option<Seq<char>>,
) -> (RegistrarModel, Seq<ActionModel>) {
    match syntax_error {
        None => (
            RegistrarModel { active: None, phase: PhaseModel::Trying { binding, origin } },
            seq![ActionModel::UnregisterAll, ActionModel::Register(binding)],
        ),
        Some(error) => (
            RegistrarModel { active: None, phase: after_failure(binding, origin, error).0 },
            seq![ActionModel::UnregisterAll] + after_failure(binding, origin, error).1,
        ),
    }
}

/// The host's report that the combination it was told to register is
/// armed. The user's own combination is then written to the store and the
/// request answered; the default armed after a failure ends the fallback
/// with the error that is owed.
pub open spec fn registered_step(state: RegistrarModel) -> (RegistrarModel, Seq<ActionModel>) {
    match state.phase {
        PhaseModel::Idle => (state, seq![]),
        PhaseModel::Trying { binding, origin } => (
            RegistrarModel { active: Some(binding), phase: PhaseModel::Idle },
            match origin {
                Origin::User => seq![ActionModel::Persist(binding), ActionModel::Reply(Ok(()))],
                Origin::Startup => seq![],
            },
        ),
        PhaseModel::FallingBack { reply } => (
            RegistrarModel {
                active: Some(DEFAULT_TOGGLE_SHORTCUT@),
                phase: PhaseModel::Idle,
            },
            reply_actions(reply),
        ),
    }
}

/// The host's report that the combination it was told to register was
/// refused, with the platform's message.
pub open spec fn failed_step(state: RegistrarModel, error: Seq<char>) -> (
    RegistrarModel,
    Seq<ActionModel>,
) {
    match state.phase {
        PhaseModel::Idle => (state, seq![]),
        PhaseModel::Trying { binding, origin } => (
            RegistrarModel { active: None, phase: after_failure(binding, origin, error).0 },
            after_failure(binding, origin, error).1,
        ),
        PhaseModel::FallingBack { reply } => (
            RegistrarModel { active: None, phase: PhaseModel::Idle },
            reply_actions(reply),
        ),
    }
}

fn copy_text(text: &Option<String>) -> (r: Option<String>)
    ensures
        text_view(r) == text_view(*text),
{
    match text {
        Some(s) => Some(s.clone()),
        None => None,
    }
}

fn reply_list(reply: &Option<String>) -> (actions: Vec<ShortcutAction>)
    ensures
        action_views(actions@) == reply_actions(text_view(*reply)),
{
    let mut actions: Vec<ShortcutAction> = Vec::new();
    match reply {
        Some(message) => {
            actions.push(ShortcutAction::Reply(Err(message.clone())));
        },
        None => {},
    }
    assert(action_views(actions@) =~= reply_actions(text_view(*reply)));
    actions
}

fn fail(
    binding: &str,
    origin: Origin,
    error: &str,
    actions: &mut Vec<ShortcutAction>,
) -> (phase: Phase)
    ensures
        phase_view(phase) == after_failure(binding@, origin, error@).0,
        action_views(final(actions)@) == action_views(old(actions)@) + after_failure(
            binding@,
            origin,
            error@,
        ).1,
{
    let is_default = same_text(binding, DEFAULT_TOGGLE_SHORTCUT);
    let by_user = match origin {
        Origin::User => true,
        Origin::Startup => false,
    };
    if by_user || !is_default {
        let reply = if by_user {
            let mut message = INVALID_SHORTCUT_PREFIX.to_owned();
            message.append(error);
            Some(message)
        } else {
            None
        };
        actions.push(ShortcutAction::Register(DEFAULT_TOGGLE_SHORTCUT.to_owned()));
        assert(action_views(actions@) =~= action_views(old(actions)@) + after_failure(
            binding@,
            origin,
            error@,
        ).1);
        Phase::FallingBack { reply }
    } else {
        assert(action_views(actions@) =~= action_views(old(actions)@) + after_failure(
            binding@,
            origin,
            error@,
        ).1);
        Phase::Idle
    }
}

impl ShortcutRegistrar {
    /// A registrar with nothing armed and nothing under way.
    pub fn new() -> (registrar: ShortcutRegistrar)
        ensures
            registrar@ == (RegistrarModel { active: None, phase: PhaseModel::Idle }),
    {
        ShortcutRegistrar { active: None, phase: Phase::Idle }
    }

    /// The combination that is armed, if any.
    pub fn active(&self) -> (binding: Option<String>)
        ensures
            text_view(binding) == self@.active,
    {
        copy_text(&self.active)
    }

    /// Tells whether no registration is under way.
    pub fn is_idle(&self) -> (idle: bool)
        ensures
            idle == (self@.phase is Idle),
    {
        match self.phase {
            Phase::Idle => true,
            _ => false,
        }
    }

    /// Takes a request to arm `binding`. The combination is parsed first;
    /// the rest is `request_checked`. The empty combination is always
    /// refused, and the default is then armed again.
    pub fn request(&mut self, binding: &str, origin: Origin) -> (actions: Vec<ShortcutAction>)
        ensures
            final(self)@ == request_step(binding@, origin, shortcut_parse_error(binding@)).0,
            action_views(actions@) == request_step(
                binding@,
                origin,
                shortcut_parse_error(binding@),
            ).1,
            binding@.len() == 0 ==> shortcut_parse_error(binding@) is Some && action_views(
                actions@,
            ) == seq![
                ActionModel::UnregisterAll,
                ActionModel::Register(DEFAULT_TOGGLE_SHORTCUT@),
            ],
    {
        let syntax_error = parse_error(binding);
        proof {
            reveal_strlit("Shift+Super+T");
        }
        self.request_checked(binding, origin, syntax_error)
    }

    /// Takes a request to arm `binding`, given what the hotkey parser made
    /// of it: `None` for a combination that parses, the parser's message
    /// otherwise. Whatever was armed is dropped. A combination that parses
    /// is handed to the host to register. One that does not counts as a
    /// failed registration: the default is armed in its place, and a user
    /// is owed the error.
    pub fn request_checked(
        &mut self,
        binding: &str,
        origin: Origin,
        syntax_error: Option<String>,
    ) -> (actions: Vec<ShortcutAction>)
        ensures
            final(self)@ == request_step(binding@, origin, text_view(syntax_error)).0,
            action_views(actions@) == request_step(binding@, origin, text_view(syntax_error)).1,
    {
        let mut actions: Vec<ShortcutAction> = Vec::new();
        actions.push(ShortcutAction::UnregisterAll);
        self.active = None;
        match syntax_error {
            None => {
                actions.push(ShortcutAction::Register(binding.to_owned()));
                self.phase = Phase::Trying { binding: binding.to_owned(), origin };
                assert(action_views(actions@) =~= request_step(binding@, origin, None).1);
            },
            Some(error) => {
                assert(action_views(actions@) =~= seq![ActionModel::UnregisterAll]);
                self.phase = fail(binding, origin, error.as_str(), &mut actions);
            },
        }
        actions
    }

    /// Takes the host's report that the combination it was last told to
    /// register is armed.
    pub fn registered(&mut self) -> (actions: Vec<ShortcutAction>)
        ensures
            final(self)@ == registered_step(old(self)@).0,
            action_views(actions@) == registered_step(old(self)@).1,
    {
        let mut actions: Vec<ShortcutAction> = Vec::new();
        let mut phase = Phase::Idle;
        core::mem::swap(&mut self.phase, &mut phase);
        match phase {
            Phase::Idle => {
                assert(action_views(actions@) =~= Seq::<ActionModel>::empty());
            },
            Phase::Trying { binding, origin } => {
                match origin {
                    Origin::User => {
                        actions.push(ShortcutAction::Persist(binding.clone()));
                        actions.push(ShortcutAction::Reply(Ok(())));
                    },
                    Origin::Startup => {},
                }
                assert(action_views(actions@) =~= registered_step(old(self)@).1);
                self.active = Some(binding);
            },
            Phase::FallingBack { reply } => {
                actions = reply_list(&reply);
                self.active = Some(DEFAULT_TOGGLE_SHORTCUT.to_owned());
            },
        }
        actions
    }

    /// Takes the host's report that the combination it was last told to
    /// register was refused, with the platform's message.
    pub fn failed(&mut self, error: &str) -> (actions: Vec<ShortcutAction>)
        ensures
            final(self)@ == failed_step(old(self)@, error@).0,
            action_views(actions@) == failed_step(old(self)@, error@).1,
    {
        let mut actions: Vec<ShortcutAction> = Vec::new();
        let mut phase = Phase::Idle;
        core::mem::swap(&mut self.phase, &mut phase);
        match phase {
            Phase::Idle => {
                assert(action_views(actions@) =~= Seq::<ActionModel>::empty());
            },
            Phase::Trying { binding, origin } => {
                assert(action_views(actions@) =~= Seq::<ActionModel>::empty());
                self.active = None;
                self.phase = fail(binding.as_str(), origin, error, &mut actions);
            },
            Phase::FallingBack { reply } => {
                actions = reply_list(&reply);
                self.active = None;
            },
        }
        actions
    }
}

/// A report of the host on the combination it was told to register:
/// `None` where it is armed, the platform's message where it was refused.
pub open spec fn report_step(state: RegistrarModel, report: Option<Seq<char>>) -> (
    RegistrarModel,
    Seq<ActionModel>,
) {
    match report {
        None => registered_step(state),
        Some(error) => failed_step(state, error),
    }
}

/// How many of the actions answer the one who asked.
pub open spec fn replies(actions: Seq<ActionModel>) -> nat
    decreases actions.len(),
{
    if actions.len() == 0 {
        0
    } else if actions.last() is Reply {
        replies(actions.drop_last()) + 1
    } else {
        replies(actions.drop_last())
    }
}

/// How many of the actions have the host register a combination, and so
/// report back.
pub open spec fn registrations(actions: Seq<ActionModel>) -> nat
    decreases actions.len(),
{
    if actions.len() == 0 {
        0
    } else if actions.last() is Register {
        registrations(actions.drop_last()) + 1
    } else {
        registrations(actions.drop_last())
    }
}

/// Protocol law for the user's request. Whatever is asked for and however
/// the host's registrations go, the exchange ends after one or two reports
/// with nothing under way, and the user is answered once, at its end. As
/// long as a registration is under way the host holds exactly one
/// combination to register and report on.
pub proof fn lemma_user_request_is_answered_once(
    binding: Seq<char>,
    syntax_error: Option<Seq<char>>,
    first: Option<Seq<char>>,
    second: Option<Seq<char>>,
)
    ensures
        ({
            let asked = request_step(binding, Origin::User, syntax_error);
            let one = report_step(asked.0, first);
            let two = report_step(one.0, second);
            &&& !(asked.0.phase is Idle)
            &&& registrations(asked.1) == 1 && replies(asked.1) == 0
            &&& one.0.phase is Idle ==> registrations(one.1) == 0 && replies(one.1) == 1
            &&& !(one.0.phase is Idle) ==> registrations(one.1) == 1 && replies(one.1) == 0
            &&& !(one.0.phase is Idle) ==> two.0.phase is Idle && registrations(two.1) == 0
                && replies(two.1) == 1
        }),
{
    reveal_with_fuel(replies, 3);
    reveal_with_fuel(registrations, 3);
    let asked = request_step(binding, Origin::User, syntax_error);
    let one = report_step(asked.0, first);
    let two = report_step(one.0, second);
    assert(asked.1.len() == 2);
    assert(asked.1.drop_last() =~= seq![ActionModel::UnregisterAll]);
    if one.0.phase is Idle {
        if asked.0.phase is Trying {
            assert(one.1.drop_last() =~= seq![ActionModel::Persist(binding)]);
        }
    }
}

/// Protocol law for startup. The exchange ends after at most two reports
/// with nothing under way, and nobody is answered.
pub proof fn lemma_startup_request_ends_in_silence(
    binding: Seq<char>,
    syntax_error: Option<Seq<char>>,
    first: Option<Seq<char>>,
    second: Option<Seq<char>>,
)
    ensures
        ({
            let asked = request_step(binding, Origin::Startup, syntax_error);
            let one = report_step(asked.0, first);
            let two = report_step(one.0, second);
            &&& two.0.phase is Idle
            &&& replies(asked.1) == 0 && replies(one.1) == 0 && replies(two.1) == 0
            &&& asked.0.phase is Idle <==> registrations(asked.1) == 0
            &&& one.0.phase is Idle <==> registrations(one.1) == 0
        }),
{
    reveal_with_fuel(replies, 3);
    reveal_with_fuel(registrations, 3);
    let asked = request_step(binding, Origin::Startup, syntax_error);
    assert(asked.1.drop_last().len() <= 1);
    if asked.1.len() == 2 {
        assert(asked.1.drop_last() =~= seq![ActionModel::UnregisterAll]);
    }
}

/// Fallback law for a malformed combination. Whatever the registrar held,
/// a user's request that the parser refuses has the host drop what was
/// armed and register the default; once the host reports the default
/// armed, the default is the armed combination, nothing is under way, and
/// the user is answered with the parser's message behind the prefix.
pub proof fn lemma_refused_request_rearms_default(binding: Seq<char>, error: Seq<char>)
    ensures
        ({
            let refused = request_step(binding, Origin::User, Some(error));
            let rearmed = registered_step(refused.0);
            &&& refused.1 == seq![
                ActionModel::UnregisterAll,
                ActionModel::Register(DEFAULT_TOGGLE_SHORTCUT@),
            ]
            &&& rearmed.0 == (RegistrarModel {
                active: Some(DEFAULT_TOGGLE_SHORTCUT@),
                phase: PhaseModel::Idle,
            })
            &&& rearmed.1 == seq![ActionModel::Reply(Err(INVALID_SHORTCUT_PREFIX@ + error))]
        }),
{
    let refused = request_step(binding, Origin::User, Some(error));
    assert(refused.1 =~= seq![
        ActionModel::UnregisterAll,
        ActionModel::Register(DEFAULT_TOGGLE_SHORTCUT@),
    ]);
}

/// Fallback law for a combination that the platform refuses. A user's
/// request that parses is tried; once the host reports it refused, the
/// host is told to register the default; once the host reports the default
/// armed, the default is the armed combination and the user is answered
/// with the platform's message behind the prefix.
pub proof fn lemma_failed_registration_rearms_default(binding: Seq<char>, error: Seq<char>)
    ensures
        ({
            let tried = request_step(binding, Origin::User, None);
            let failed = failed_step(tried.0, error);
            let rearmed = registered_step(failed.0);
            &&& tried.1 == seq![ActionModel::UnregisterAll, ActionModel::Register(binding)]
            &&& failed.1 == seq![ActionModel::Register(DEFAULT_TOGGLE_SHORTCUT@)]
            &&& rearmed.0 == (RegistrarModel {
                active: Some(DEFAULT_TOGGLE_SHORTCUT@),
                phase: PhaseModel::Idle,
            })
            &&& rearmed.1 == seq![ActionModel::Reply(Err(INVALID_SHORTCUT_PREFIX@ + error))]
        }),
{
}

/// A user's request that parses and that the platform accepts arms the
/// requested combination, has it written to the store and is answered
/// with success. At startup the same arms the combination and nothing
/// more.
pub proof fn lemma_accepted_request_is_armed(binding: Seq<char>, origin: Origin)
    ensures
        ({
            let tried = request_step(binding, origin, None);
            let armed = registered_step(tried.0);
            &&& armed.0 == (RegistrarModel { active: Some(binding), phase: PhaseModel::Idle })
            &&& origin == Origin::User ==> armed.1 == seq![
                ActionModel::Persist(binding),
                ActionModel::Reply(Ok(())),
            ]
            &&& origin == Origin::Startup ==> armed.1 == Seq::<ActionModel>::empty()
        }),
{
}

/// At startup a stored combination that cannot be armed gives way to the
/// default without an answer to anyone, and a default that cannot be armed
/// is given up: nothing is tried again.
pub proof fn lemma_startup_failure_is_silent(binding: Seq<char>, error: Seq<char>)
    ensures
        ({
            let tried = request_step(binding, Origin::Startup, None);
            let failed = failed_step(tried.0, error);
            &&& binding != DEFAULT_TOGGLE_SHORTCUT@ ==> failed.1 == seq![
                ActionModel::Register(DEFAULT_TOGGLE_SHORTCUT@),
            ] && registered_step(failed.0).1 == Seq::<ActionModel>::empty() && registered_step(
                failed.0,
            ).0.active == Some(DEFAULT_TOGGLE_SHORTCUT@)
            &&& binding == DEFAULT_TOGGLE_SHORTCUT@ ==> failed.1 == Seq::<ActionModel>::empty()
                && failed.0 == (RegistrarModel { active: None, phase: PhaseModel::Idle })
        }),
{
}

} // verus!
