//! A session: the decisions between a command, or an interactive loop, and
//! its outcome.
//!
//! The shell does the outside work (reading lines, asking for secrets,
//! reading and writing storage) and reports each result as an [`Event`]. The
//! session decides what follows: which messages to show and which outside
//! work comes next. A single command and the interactive loop are the same
//! machine; only the interactive one returns to its menu.

use crate::actions::{
    chosen_password, list_passwords, record_lines, remove_password, show_password, store_chosen,
    update_master_password,
};
use crate::commands::{text_of, Plan, PlanView, VaultAction, VaultActionView};
use crate::error::VaultError;
use crate::generator::generate_many;
use crate::policy::GenerationPolicy;
use crate::repl::{
    build_job, choice_prompt, field_count, field_prompt, job_of, menu_text,
    parse_selection, selection_of, welcome_text, Job, JobView, Selection,
};
use crate::shell::{
    failure, failure_of, message_views, plain, success, Effect, EffectView, Event, Message,
    MessageView, Reaction, ReactionView,
};
use crate::text::{texts, trim, trimmed};
use crate::vault::{
    contains_key, lookup, open_outcome, put, rekeyed, stored_view, without, Vault, VaultView,
};
use vstd::prelude::*;
use vstd::string::*;

verus! {

/// Where a session stands: what it waits for.
pub enum Stage {
    /// For a line that selects a menu entry.
    Menu,
    /// For the next answer to the selection's questions.
    Asking { selection: Selection, answers: Vec<String> },
    /// For the master passphrase, before the vault is opened for `action`.
    Unlocking { action: VaultAction },
    /// For the new master passphrase. The master passphrase is known
    /// where the vault is still to be opened.
    Renewing { known_master: Option<String> },
    /// For what storage holds, to open it with `master` for `action`.
    Loading { master: String, action: VaultAction },
    /// For the changed vault to be written; `pending` is shown once it is.
    Storing { pending: Vec<Message> },
    /// For nothing: the session is over.
    Exited,
}

/// What a stage holds.
pub enum StageView {
    Menu,
    Asking { selection: Selection, answers: Seq<Seq<char>> },
    Unlocking { action: VaultActionView },
    Renewing { known_master: Option<Seq<char>> },
    Loading { master: Seq<char>, action: VaultActionView },
    Storing { pending: Seq<MessageView> },
    Exited,
}

impl View for Stage {
    type V = StageView;

    open spec fn view(&self) -> StageView {
        match *self {
            Stage::Menu => StageView::Menu,
            Stage::Asking { selection, answers } => StageView::Asking {
                selection,
                answers: texts(answers@),
            },
            Stage::Unlocking { action } => StageView::Unlocking { action: action@ },
            Stage::Renewing { known_master } => StageView::Renewing {
                known_master: text_of(known_master),
            },
            Stage::Loading { master, action } => StageView::Loading {
                master: master@,
                action: action@,
            },
            Stage::Storing { pending } => StageView::Storing { pending: message_views(pending@) },
            Stage::Exited => StageView::Exited,
        }
    }
}

/// The view of an optional open vault.
pub open spec fn vault_view(vault: Option<Vault>) -> Option<VaultView> {
    match vault {
        Some(v) => Some(v@),
        None => None,
    }
}

/// The view of what the generator gave, where it was asked.
pub open spec fn drawn_view(generated: Option<Result<Vec<String>, VaultError>>) -> Option<
    Result<Seq<Seq<char>>, VaultError>,
> {
    match generated {
        Some(Ok(passwords)) => Some(Ok(texts(passwords@))),
        Some(Err(e)) => Some(Err(e)),
        None => None,
    }
}

/// A session on one vault file.
pub struct Session {
    interactive: bool,
    path: String,
    vault: Option<Vault>,
    stage: Stage,
}

/// What a session holds: whether it returns to a menu, its vault file, the
/// vault where it is open, and where the session stands.
pub struct SessionView {
    pub interactive: bool,
    pub path: Seq<char>,
    pub vault: Option<VaultView>,
    pub stage: StageView,
}

impl View for Session {
    type V = SessionView;

    closed spec fn view(&self) -> SessionView {
        SessionView {
            interactive: self.interactive,
            path: self.path@,
            vault: vault_view(self.vault),
            stage: self.stage@,
        }
    }
}

/// A session that has decided all it can without the generator.
pub enum Pending {
    /// Nothing is left to do for this event.
    Done { session: Session, reaction: Reaction },
    /// `action` is about to be performed on the open vault.
    Act { interactive: bool, path: String, vault: Vault, action: VaultAction },
    /// Passwords are about to be generated under `policy`.
    Generate {
        interactive: bool,
        path: String,
        open_vault: Option<Vault>,
        policy: GenerationPolicy,
    },
}

/// What a pending session holds.
pub enum PendingView {
    Done { session: SessionView, reaction: ReactionView },
    Act { interactive: bool, path: Seq<char>, vault: VaultView, action: VaultActionView },
    Generate {
        interactive: bool,
        path: Seq<char>,
        open_vault: Option<VaultView>,
        policy: GenerationPolicy,
    },
}

impl View for Pending {
    type V = PendingView;

    closed spec fn view(&self) -> PendingView {
        match *self {
            Pending::Done { session, reaction } => PendingView::Done {
                session: session@,
                reaction: reaction@,
            },
            Pending::Act { interactive, path, vault, action } => PendingView::Act {
                interactive,
                path: path@,
                vault: vault@,
                action: action@,
            },
            Pending::Generate { interactive, path, open_vault, policy } => PendingView::Generate {
                interactive,
                path: path@,
                open_vault: vault_view(open_vault),
                policy,
            },
        }
    }
}

/// The label under which the master passphrase is asked for.
pub open spec fn master_label() -> Seq<char> {
    "master password"@
}

/// The label under which a new master passphrase is asked for.
pub open spec fn new_master_label() -> Seq<char> {
    "new master password"@
}

/// The session once `messages` are all that is left to show: back at its
/// menu where it is interactive, else over.
pub open spec fn settle(
    interactive: bool,
    path: Seq<char>,
    vault: Option<VaultView>,
    messages: Seq<MessageView>,
) -> (SessionView, ReactionView) {
    if interactive {
        (
            SessionView { interactive, path, vault, stage: StageView::Menu },
            ReactionView {
                messages: messages.push(plain(menu_text())),
                effect: EffectView::ReadLine { prompt: choice_prompt() },
            },
        )
    } else {
        (
            SessionView { interactive, path, vault, stage: StageView::Exited },
            ReactionView { messages, effect: EffectView::Stop },
        )
    }
}

/// The session that ends without a word.
pub open spec fn over(interactive: bool, path: Seq<char>, vault: Option<VaultView>) -> (
    SessionView,
    ReactionView,
) {
    (
        SessionView { interactive, path, vault, stage: StageView::Exited },
        ReactionView { messages: Seq::empty(), effect: EffectView::Stop },
    )
}

/// What an action comes to: the vault after it, the messages to show, and
/// whether the vault has changed and must be written.
pub struct OutcomeView {
    pub vault: VaultView,
    pub messages: Seq<MessageView>,
    pub changed: bool,
}

/// The one password that the generator gave, or why there is none.
pub open spec fn first_drawn(generated: Option<Result<Seq<Seq<char>>, VaultError>>) -> Result<
    Seq<char>,
    VaultError,
> {
    match generated {
        Some(Ok(passwords)) => if passwords.len() > 0 {
            Ok(passwords[0])
        } else {
            Err(VaultError::Generation)
        },
        Some(Err(e)) => Err(e),
        None => Err(VaultError::Generation),
    }
}

/// Plain messages, one for each text.
pub open spec fn plain_lines(lines: Seq<Seq<char>>) -> Seq<MessageView> {
    lines.map_values(|t: Seq<char>| plain(t))
}

/// What `action` comes to on `vault`, given what the generator gave.
pub open spec fn outcome_of(
    vault: VaultView,
    action: VaultActionView,
    generated: Option<Result<Seq<Seq<char>>, VaultError>>,
) -> OutcomeView {
    match action {
        VaultActionView::Add { service, username, password, generate, policy } => {
            match chosen_password(password, generate, first_drawn(generated)) {
                Ok(p) => OutcomeView {
                    vault: VaultView {
                        passphrase: vault.passphrase,
                        records: put(vault.records, service, username, p),
                    },
                    messages: seq![success("Password added successfully"@)],
                    changed: true,
                },
                Err(e) => OutcomeView { vault, messages: seq![failure_of(e)], changed: false },
            }
        },
        VaultActionView::List { show_passwords } => OutcomeView {
            vault,
            messages: plain_lines(record_lines(vault.records, show_passwords)),
            changed: false,
        },
        VaultActionView::Remove { service, username } => if contains_key(
            vault.records,
            service,
            username,
        ) {
            OutcomeView {
                vault: VaultView {
                    passphrase: vault.passphrase,
                    records: without(vault.records, service, username),
                },
                messages: seq![plain("Password deleted"@)],
                changed: true,
            }
        } else {
            OutcomeView {
                vault,
                messages: seq![failure_of(VaultError::NotFound)],
                changed: false,
            }
        },
        VaultActionView::Show { service, username } => OutcomeView {
            vault,
            messages: match lookup(vault.records, service, username) {
                Some(p) => seq![plain("Password: "@ + p)],
                None => seq![failure_of(VaultError::NotFound)],
            },
            changed: false,
        },
        VaultActionView::UpdateMaster { new_master } => match new_master {
            Some(n) => OutcomeView {
                vault: rekeyed(vault, n),
                messages: seq![success("Master password updated successfully"@)],
                changed: true,
            },
            None => OutcomeView {
                vault,
                messages: seq![failure_of(VaultError::Validation)],
                changed: false,
            },
        },
    }
}

/// The messages for a request to generate: the passwords, one per line,
/// then a confirmation; or the failure.
pub open spec fn generate_messages(
    generated: Option<Result<Seq<Seq<char>>, VaultError>>,
) -> Seq<MessageView> {
    match generated {
        Some(Ok(passwords)) => plain_lines(passwords).push(success("Random password generated."@)),
        Some(Err(e)) => seq![failure_of(e)],
        None => seq![failure_of(VaultError::Generation)],
    }
}

/// The session after `action` is performed on its open vault: where the
/// vault has changed it is written first and the messages wait for that.
pub open spec fn act(
    interactive: bool,
    path: Seq<char>,
    vault: VaultView,
    action: VaultActionView,
    generated: Option<Result<Seq<Seq<char>>, VaultError>>,
) -> (SessionView, ReactionView) {
    let outcome = outcome_of(vault, action, generated);
    if outcome.changed {
        (
            SessionView {
                interactive,
                path,
                vault: Some(outcome.vault),
                stage: StageView::Storing { pending: outcome.messages },
            },
            ReactionView {
                messages: Seq::empty(),
                effect: EffectView::Store { path, sealed: outcome.vault },
            },
        )
    } else {
        settle(interactive, path, Some(outcome.vault), outcome.messages)
    }
}

/// The next step towards `action`: ask for the master passphrase where the
/// vault is closed and none is at hand; then for the new one where the
/// action needs it; then read storage where the vault is closed; then act.
pub open spec fn ready(
    interactive: bool,
    path: Seq<char>,
    vault: Option<VaultView>,
    master: Option<Seq<char>>,
    action: VaultActionView,
) -> PendingView {
    if vault is None && master is None {
        PendingView::Done {
            session: SessionView {
                interactive,
                path,
                vault,
                stage: StageView::Unlocking { action },
            },
            reaction: ReactionView {
                messages: Seq::empty(),
                effect: EffectView::ReadSecret { label: master_label() },
            },
        }
    } else if action == (VaultActionView::UpdateMaster { new_master: None }) {
        PendingView::Done {
            session: SessionView { interactive, path, vault, stage: StageView::Renewing { known_master: master } },
            reaction: ReactionView {
                messages: Seq::empty(),
                effect: EffectView::ReadSecret { label: new_master_label() },
            },
        }
    } else {
        match (vault, master) {
            (Some(v), _) => PendingView::Act { interactive, path, vault: v, action },
            (None, Some(m)) => PendingView::Done {
                session: SessionView {
                    interactive,
                    path,
                    vault,
                    stage: StageView::Loading { master: m, action },
                },
                reaction: ReactionView {
                    messages: Seq::empty(),
                    effect: EffectView::Load { path },
                },
            },
            (None, None) => done(over(interactive, path, vault)),
        }
    }
}

/// A pending session with nothing left to do.
pub open spec fn done(result: (SessionView, ReactionView)) -> PendingView {
    PendingView::Done { session: result.0, reaction: result.1 }
}

/// The next step once a selection's answers have been read as a job.
pub open spec fn begin_job(
    interactive: bool,
    path: Seq<char>,
    vault: Option<VaultView>,
    job: Result<JobView, VaultError>,
) -> PendingView {
    match job {
        Err(e) => done(settle(interactive, path, vault, seq![failure_of(e)])),
        Ok(JobView::Generate { policy }) => PendingView::Generate {
            interactive,
            path,
            open_vault: vault,
            policy,
        },
        Ok(JobView::Vault { action }) => ready(interactive, path, vault, None, action),
    }
}

/// How a plan begins. Generating needs no vault and asks for no
/// passphrase. The interactive session greets and shows its menu.
pub open spec fn begin_of(plan: PlanView) -> PendingView {
    match plan {
        PlanView::Generate { policy } => PendingView::Generate {
            interactive: false,
            path: Seq::empty(),
            open_vault: None,
            policy,
        },
        PlanView::Vault { path, master, action } => ready(false, path, None, master, action),
        PlanView::Repl { path } => PendingView::Done {
            session: SessionView { interactive: true, path, vault: None, stage: StageView::Menu },
            reaction: ReactionView {
                messages: seq![plain(welcome_text()), plain(menu_text())],
                effect: EffectView::ReadLine { prompt: choice_prompt() },
            },
        },
    }
}

/// What a session decides on an event, up to where the generator is needed.
///
/// The end of input ends the session without a word, as does an event that
/// the session does not wait for. A line that selects nothing is an error
/// and the menu comes again. A vault that does not open is an error and
/// nothing is done to it. A write that fails is an error and the session
/// forgets its vault.
pub open spec fn prepare_of(s: SessionView, event: Event) -> PendingView {
    match (s.stage, event) {
        (_, Event::EndOfInput) => done(over(s.interactive, s.path, s.vault)),
        (StageView::Menu, Event::Line(line)) => match selection_of(trimmed(line@)) {
            None => done(
                settle(s.interactive, s.path, s.vault, seq![failure_of(VaultError::Validation)]),
            ),
            Some(Selection::Exit) => done(over(s.interactive, s.path, s.vault)),
            Some(selection) => if field_count(selection) == 0 {
                begin_job(s.interactive, s.path, s.vault, job_of(selection, Seq::empty()))
            } else {
                PendingView::Done {
                    session: SessionView {
                        interactive: s.interactive,
                        path: s.path,
                        vault: s.vault,
                        stage: StageView::Asking { selection, answers: Seq::empty() },
                    },
                    reaction: ReactionView {
                        messages: Seq::empty(),
                        effect: EffectView::ReadLine { prompt: field_prompt(selection, 0) },
                    },
                }
            },
        },
        (StageView::Asking { selection, answers }, Event::Line(line)) => {
            let given = answers.push(trimmed(line@));
            if given.len() < field_count(selection) {
                PendingView::Done {
                    session: SessionView {
                        interactive: s.interactive,
                        path: s.path,
                        vault: s.vault,
                        stage: StageView::Asking { selection, answers: given },
                    },
                    reaction: ReactionView {
                        messages: Seq::empty(),
                        effect: EffectView::ReadLine {
                            prompt: field_prompt(selection, given.len() as int),
                        },
                    },
                }
            } else {
                begin_job(s.interactive, s.path, s.vault, job_of(selection, given))
            }
        },
        (StageView::Unlocking { action }, Event::Secret(master)) => ready(
            s.interactive,
            s.path,
            s.vault,
            Some(master@),
            action,
        ),
        (StageView::Renewing { known_master }, Event::Secret(new_master)) => ready(
            s.interactive,
            s.path,
            s.vault,
            known_master,
            VaultActionView::UpdateMaster { new_master: Some(new_master@) },
        ),
        (StageView::Loading { master, action }, Event::Loaded(stored)) => match open_outcome(
            stored_view(stored),
            master,
        ) {
            Ok(vault) => PendingView::Act {
                interactive: s.interactive,
                path: s.path,
                vault,
                action,
            },
            Err(e) => done(settle(s.interactive, s.path, None, seq![failure_of(e)])),
        },
        (StageView::Loading { master, action }, Event::Failed(details)) => done(
            settle(s.interactive, s.path, None, seq![failure(details@)]),
        ),
        (StageView::Storing { pending }, Event::Stored) => done(
            settle(s.interactive, s.path, s.vault, pending),
        ),
        (StageView::Storing { pending }, Event::Failed(details)) => done(
            settle(s.interactive, s.path, None, seq![failure(details@)]),
        ),
        _ => done(over(s.interactive, s.path, s.vault)),
    }
}

/// The policy that the generator is asked under before a pending session
/// goes on, if it is asked at all. Adding asks for one password, whatever
/// the policy's count.
pub open spec fn policy_in_play(pending: PendingView) -> Option<GenerationPolicy> {
    match pending {
        PendingView::Done { .. } => None,
        PendingView::Act { action, .. } => match action {
            VaultActionView::Add { generate, policy, .. } => if generate {
                Some(
                    GenerationPolicy {
                        length: policy.length,
                        use_symbols: policy.use_symbols,
                        use_uppercase: policy.use_uppercase,
                        use_lowercase: policy.use_lowercase,
                        use_numbers: policy.use_numbers,
                        count: 1,
                    },
                )
            } else {
                None
            },
            _ => None,
        },
        PendingView::Generate { policy, .. } => Some(policy),
    }
}

/// How a pending session goes on, given what the generator gave.
pub open spec fn complete_of(
    pending: PendingView,
    generated: Option<Result<Seq<Seq<char>>, VaultError>>,
) -> (SessionView, ReactionView) {
    match pending {
        PendingView::Done { session, reaction } => (session, reaction),
        PendingView::Act { interactive, path, vault, action } => act(
            interactive,
            path,
            vault,
            action,
            generated,
        ),
        PendingView::Generate { interactive, path, open_vault, policy } => settle(
            interactive,
            path,
            open_vault,
            generate_messages(generated),
        ),
    }
}

/// The session and its reaction after an event, given what the generator
/// gave where it was asked.
pub open spec fn step_of(
    s: SessionView,
    event: Event,
    generated: Option<Result<Seq<Seq<char>>, VaultError>>,
) -> (SessionView, ReactionView) {
    complete_of(prepare_of(s, event), generated)
}

/// Whether `result` is something that the generator may give under
/// `policy`: its failures are owed to the policy alone, and its passwords
/// are as many as asked for and each as the policy admits.
pub open spec fn drawn_ok(policy: GenerationPolicy, result: Result<Seq<Seq<char>>, VaultError>) -> bool {
    match result {
        Ok(passwords) => {
            &&& policy.has_alphabet()
            &&& policy.length_fits()
            &&& passwords.len() == policy.count
            &&& forall|i: int| 0 <= i < passwords.len() ==> policy.admits(#[trigger] passwords[i])
        },
        Err(e) => if !policy.has_alphabet() {
            e == VaultError::Generation
        } else {
            !policy.length_fits() && e == VaultError::Validation
        },
    }
}

/// Whether `generated` is what asking the generator under `policy`, or not
/// asking it at all, may give.
pub open spec fn drawn_for(
    policy: Option<GenerationPolicy>,
    generated: Option<Result<Seq<Seq<char>>, VaultError>>,
) -> bool {
    match (policy, generated) {
        (None, None) => true,
        (Some(p), Some(result)) => drawn_ok(p, result),
        _ => false,
    }
}

/// A list of one message.
fn one(message: Message) -> (messages: Vec<Message>)
    ensures
        message_views(messages@) == seq![message@],
{
    let mut messages: Vec<Message> = Vec::new();
    messages.push(message);
    assert(message_views(messages@) =~= seq![message@]);
    messages
}

/// No message at all.
fn none() -> (messages: Vec<Message>)
    ensures
        message_views(messages@) == Seq::<MessageView>::empty(),
{
    let messages: Vec<Message> = Vec::new();
    assert(message_views(messages@) =~= Seq::<MessageView>::empty());
    messages
}

/// Plain messages, one for each line.
fn plain_messages(lines: &Vec<String>) -> (messages: Vec<Message>)
    ensures
        message_views(messages@) == plain_lines(texts(lines@)),
{
    let mut messages: Vec<Message> = Vec::new();
    let mut i: usize = 0;
    while i < lines.len()
        invariant
            i <= lines.len(),
            messages.len() == i,
            forall|k: int| 0 <= k < i ==> (#[trigger] messages[k])@ == plain(lines[k]@),
        decreases lines.len() - i,
    {
        messages.push(Message::plain(lines[i].clone()));
        i = i + 1;
    }
    assert(message_views(messages@) =~= plain_lines(texts(lines@)));
    messages
}

/// The one password that the generator gave, or why there is none.
fn first_of(generated: Option<Result<Vec<String>, VaultError>>) -> (first: Result<
    String,
    VaultError,
>)
    ensures
        match first {
            Ok(password) => first_drawn(drawn_view(generated)) == Ok::<Seq<char>, VaultError>(
                password@,
            ),
            Err(e) => first_drawn(drawn_view(generated)) == Err::<Seq<char>, VaultError>(e),
        },
{
    match generated {
        Some(Ok(passwords)) => {
            if passwords.len() > 0 {
                assert(texts(passwords@)[0] == passwords[0]@);
                Ok(passwords[0].clone())
            } else {
                Err(VaultError::Generation)
            }
        },
        Some(Err(e)) => Err(e),
        None => Err(VaultError::Generation),
    }
}

/// Performs `action` on the open vault and says what to show and whether
/// the vault has changed.
fn perform(
    vault: &mut Vault,
    action: VaultAction,
    generated: Option<Result<Vec<String>, VaultError>>,
) -> (result: (Vec<Message>, bool))
    ensures
        final(vault).inv(),
        final(vault)@ == outcome_of(old(vault)@, action@, drawn_view(generated)).vault,
        message_views(result.0@) == outcome_of(
            old(vault)@,
            action@,
            drawn_view(generated),
        ).messages,
        result.1 == outcome_of(old(vault)@, action@, drawn_view(generated)).changed,
{
    proof {
        use_type_invariant(&*vault);
    }
    match action {
        VaultAction::Add { service, username, password, generate, policy } => {
            let chosen = if generate {
                first_of(generated)
            } else {
                match password {
                    Some(p) => Ok(p),
                    None => Err(VaultError::Validation),
                }
            };
            match store_chosen(vault, service, username, chosen) {
                Ok(_) => (one(Message::success("Password added successfully")), true),
                Err(e) => (one(Message::failure_of(e)), false),
            }
        },
        VaultAction::List { show_passwords } => {
            let lines = list_passwords(vault, show_passwords);
            (plain_messages(&lines), false)
        },
        VaultAction::Remove { service, username } => {
            match remove_password(vault, service, username) {
                Ok(_) => (one(Message::plain(String::from_str("Password deleted"))), true),
                Err(e) => (one(Message::failure_of(e)), false),
            }
        },
        VaultAction::Show { service, username } => {
            match show_password(vault, service, username) {
                Ok(password) => (one(Message::labelled("Password: ", &password)), false),
                Err(e) => (one(Message::failure_of(e)), false),
            }
        },
        VaultAction::UpdateMaster { new_master } => match new_master {
            Some(n) => {
                update_master_password(vault, n);
                (one(Message::success("Master password updated successfully")), true)
            },
            None => (one(Message::failure_of(VaultError::Validation)), false),
        },
    }
}

/// The messages for a request to generate.
fn generated_messages(generated: Option<Result<Vec<String>, VaultError>>) -> (messages: Vec<
    Message,
>)
    ensures
        message_views(messages@) == generate_messages(drawn_view(generated)),
{
    match generated {
        Some(Ok(passwords)) => {
            let mut messages = plain_messages(&passwords);
            let ghost before = message_views(messages@);
            let done = Message::success("Random password generated.");
            let ghost last = done@;
            messages.push(done);
            assert(message_views(messages@) =~= before.push(last));
            messages
        },
        Some(Err(e)) => one(Message::failure_of(e)),
        None => one(Message::failure_of(VaultError::Generation)),
    }
}

/// The menu, as a message.
fn menu_message() -> (message: Message)
    ensures
        message@ == plain(menu_text()),
{
    Message::plain(
        String::from_str(
            "[1] add password [2] generate random password [3] list passwords [4] remove password [5] show password [6] update master password [7] exit",
        ),
    )
}

/// The reading of a selection.
fn read_choice() -> (effect: Effect)
    ensures
        effect@ == (EffectView::ReadLine { prompt: choice_prompt() }),
{
    Effect::ReadLine { prompt: String::from_str("Enter your choice") }
}

/// The session once `messages` are all that is left to show.
fn settled(interactive: bool, path: String, vault: Option<Vault>, messages: Vec<Message>) -> (result:
    (Session, Reaction))
    ensures
        (result.0@, result.1@) == settle(
            interactive,
            path@,
            vault_view(vault),
            message_views(messages@),
        ),
{
    if interactive {
        let mut messages = messages;
        let ghost before = message_views(messages@);
        messages.push(menu_message());
        assert(message_views(messages@) =~= before.push(plain(menu_text())));
        (
            Session { interactive, path, vault, stage: Stage::Menu },
            Reaction { messages, effect: read_choice() },
        )
    } else {
        (
            Session { interactive, path, vault, stage: Stage::Exited },
            Reaction { messages, effect: Effect::Stop },
        )
    }
}

/// The session that ends without a word.
fn ended(interactive: bool, path: String, vault: Option<Vault>) -> (result: (Session, Reaction))
    ensures
        (result.0@, result.1@) == over(interactive, path@, vault_view(vault)),
{
    (
        Session { interactive, path, vault, stage: Stage::Exited },
        Reaction { messages: none(), effect: Effect::Stop },
    )
}

/// A pending session with nothing left to do.
fn finished(result: (Session, Reaction)) -> (pending: Pending)
    ensures
        pending@ == done((result.0@, result.1@)),
{
    Pending::Done { session: result.0, reaction: result.1 }
}

/// The session that waits for an outside answer in `stage`.
fn waiting(interactive: bool, path: String, vault: Option<Vault>, stage: Stage, effect: Effect) -> (pending:
    Pending)
    ensures
        pending@ == (PendingView::Done {
            session: SessionView {
                interactive,
                path: path@,
                vault: vault_view(vault),
                stage: stage@,
            },
            reaction: ReactionView { messages: Seq::empty(), effect: effect@ },
        }),
{
    Pending::Done {
        session: Session { interactive, path, vault, stage },
        reaction: Reaction { messages: none(), effect },
    }
}

/// Whether `action` still lacks the new master passphrase.
fn lacks_new_master(action: &VaultAction) -> (lacks: bool)
    ensures
        lacks == (action@ == (VaultActionView::UpdateMaster { new_master: None })),
{
    match action {
        VaultAction::UpdateMaster { new_master } => new_master.is_none(),
        _ => false,
    }
}

/// The next step towards `action`.
fn make_ready(
    interactive: bool,
    path: String,
    vault: Option<Vault>,
    master: Option<String>,
    action: VaultAction,
) -> (pending: Pending)
    ensures
        pending@ == ready(interactive, path@, vault_view(vault), text_of(master), action@),
{
    if vault.is_none() && master.is_none() {
        waiting(
            interactive,
            path,
            vault,
            Stage::Unlocking { action },
            Effect::ReadSecret { label: String::from_str("master password") },
        )
    } else if lacks_new_master(&action) {
        waiting(
            interactive,
            path,
            vault,
            Stage::Renewing { known_master: master },
            Effect::ReadSecret { label: String::from_str("new master password") },
        )
    } else {
        match (vault, master) {
            (Some(v), _) => Pending::Act { interactive, path, vault: v, action },
            (None, Some(m)) => {
                let target = path.clone();
                waiting(
                    interactive,
                    path,
                    None,
                    Stage::Loading { master: m, action },
                    Effect::Load { path: target },
                )
            },
            (None, None) => finished(ended(interactive, path, None)),
        }
    }
}

/// The next step once a selection's answers have been read as a job.
fn start_job(
    interactive: bool,
    path: String,
    vault: Option<Vault>,
    job: Result<Job, VaultError>,
) -> (pending: Pending)
    ensures
        pending@ == begin_job(
            interactive,
            path@,
            vault_view(vault),
            match job {
                Ok(j) => Ok(j@),
                Err(e) => Err(e),
            },
        ),
{
    match job {
        Err(e) => finished(settled(interactive, path, vault, one(Message::failure_of(e)))),
        Ok(Job::Generate { policy }) => Pending::Generate {
            interactive,
            path,
            open_vault: vault,
            policy,
        },
        Ok(Job::Vault { action }) => make_ready(interactive, path, vault, None, action),
    }
}

impl Session {
    /// Whether the session is over.
    pub fn is_over(&self) -> (over: bool)
        ensures
            over == (self@.stage is Exited),
    {
        match self.stage {
            Stage::Exited => true,
            _ => false,
        }
    }

    /// Whether the session returns to a menu after each action.
    pub fn is_interactive(&self) -> (interactive: bool)
        ensures
            interactive == self@.interactive,
    {
        self.interactive
    }

    /// The number of records in the session's vault, where it is open.
    pub fn open_records(&self) -> (n: Option<usize>)
        ensures
            match n {
                Some(count) => self@.vault matches Some(v) && v.records.len() == count,
                None => self@.vault is None,
            },
    {
        match &self.vault {
            Some(v) => Some(v.len()),
            None => None,
        }
    }

    /// Begins what `plan` asks for, up to where the generator is needed.
    pub fn begin(plan: Plan) -> (pending: Pending)
        ensures
            pending@ == begin_of(plan@),
    {
        match plan {
            Plan::Generate { policy } => Pending::Generate {
                interactive: false,
                path: String::new(),
                open_vault: None,
                policy,
            },
            Plan::Vault { path, master, action } => make_ready(false, path, None, master, action),
            Plan::Repl { path } => {
                let mut messages: Vec<Message> = Vec::new();
                messages.push(Message::plain(String::from_str("Welcome to L🦀CKBOX!")));
                messages.push(menu_message());
                assert(message_views(messages@) =~= seq![
                    plain(welcome_text()),
                    plain(menu_text()),
                ]);
                Pending::Done {
                    session: Session { interactive: true, path, vault: None, stage: Stage::Menu },
                    reaction: Reaction { messages, effect: read_choice() },
                }
            },
        }
    }

    /// Decides on `event`, up to where the generator is needed.
    pub fn prepare(self, event: Event) -> (pending: Pending)
        ensures
            pending@ == prepare_of(self@, event),
    {
        let Session { interactive, path, vault, stage } = self;
        match (stage, event) {
            (_, Event::EndOfInput) => finished(ended(interactive, path, vault)),
            (Stage::Menu, Event::Line(line)) => match parse_selection(&line) {
                None => finished(
                    settled(
                        interactive,
                        path,
                        vault,
                        one(Message::failure_of(VaultError::Validation)),
                    ),
                ),
                Some(Selection::Exit) => finished(ended(interactive, path, vault)),
                Some(selection) => {
                    let answers: Vec<String> = Vec::new();
                    assert(texts(answers@) =~= Seq::<Seq<char>>::empty());
                    if selection.fields() == 0 {
                        let job = build_job(selection, &answers);
                        start_job(interactive, path, vault, job)
                    } else {
                        let prompt = selection.prompt(0);
                        waiting(
                            interactive,
                            path,
                            vault,
                            Stage::Asking { selection, answers },
                            Effect::ReadLine { prompt },
                        )
                    }
                },
            },
            (Stage::Asking { selection, answers }, Event::Line(line)) => {
                let mut answers = answers;
                let ghost before = texts(answers@);
                let answer = trim(&line);
                answers.push(answer);
                assert(texts(answers@) =~= before.push(trimmed(line@)));
                if answers.len() < selection.fields() {
                    let prompt = selection.prompt(answers.len());
                    waiting(
                        interactive,
                        path,
                        vault,
                        Stage::Asking { selection, answers },
                        Effect::ReadLine { prompt },
                    )
                } else {
                    let job = build_job(selection, &answers);
                    start_job(interactive, path, vault, job)
                }
            },
            (Stage::Unlocking { action }, Event::Secret(master)) => make_ready(
                interactive,
                path,
                vault,
                Some(master),
                action,
            ),
            (Stage::Renewing { known_master }, Event::Secret(new_master)) => make_ready(
                interactive,
                path,
                vault,
                known_master,
                VaultAction::UpdateMaster { new_master: Some(new_master) },
            ),
            (Stage::Loading { master, action }, Event::Loaded(stored)) => {
                match Vault::open(stored, master) {
                    Ok(opened) => Pending::Act { interactive, path, vault: opened, action },
                    Err(e) => finished(
                        settled(interactive, path, None, one(Message::failure_of(e))),
                    ),
                }
            },
            (Stage::Loading { master, action }, Event::Failed(details)) => finished(
                settled(interactive, path, None, one(Message::failure(&details))),
            ),
            (Stage::Storing { pending }, Event::Stored) => finished(
                settled(interactive, path, vault, pending),
            ),
            (Stage::Storing { pending }, Event::Failed(details)) => finished(
                settled(interactive, path, None, one(Message::failure(&details))),
            ),
            _ => finished(ended(interactive, path, vault)),
        }
    }
}

/// The session after `action` is performed on its open vault.
fn acted(
    interactive: bool,
    path: String,
    vault: Vault,
    action: VaultAction,
    generated: Option<Result<Vec<String>, VaultError>>,
) -> (result: (Session, Reaction))
    ensures
        (result.0@, result.1@) == act(interactive, path@, vault@, action@, drawn_view(generated)),
{
    let mut vault = vault;
    let (messages, changed) = perform(&mut vault, action, generated);
    if changed {
        let sealed = vault.seal();
        let target = path.clone();
        (
            Session {
                interactive,
                path,
                vault: Some(vault),
                stage: Stage::Storing { pending: messages },
            },
            Reaction { messages: none(), effect: Effect::Store { path: target, sealed } },
        )
    } else {
        settled(interactive, path, Some(vault), messages)
    }
}

impl Pending {
    /// The policy under which the generator is to be asked before the
    /// session goes on, if it is to be asked at all.
    pub fn policy(&self) -> (policy: Option<GenerationPolicy>)
        ensures
            policy == policy_in_play(self@),
    {
        match self {
            Pending::Done { .. } => None,
            Pending::Act { action, .. } => match action {
                VaultAction::Add { generate, policy, .. } => if *generate {
                    Some(
                        GenerationPolicy {
                            length: policy.length,
                            use_symbols: policy.use_symbols,
                            use_uppercase: policy.use_uppercase,
                            use_lowercase: policy.use_lowercase,
                            use_numbers: policy.use_numbers,
                            count: 1,
                        },
                    )
                } else {
                    None
                },
                _ => None,
            },
            Pending::Generate { policy, .. } => Some(*policy),
        }
    }

    /// Goes on with what the generator gave: the session after the event
    /// and its reaction.
    pub fn complete(self, generated: Option<Result<Vec<String>, VaultError>>) -> (result: (
        Session,
        Reaction,
    ))
        ensures
            (result.0@, result.1@) == complete_of(self@, drawn_view(generated)),
    {
        match self {
            Pending::Done { session, reaction } => (session, reaction),
            Pending::Act { interactive, path, vault, action } => acted(
                interactive,
                path,
                vault,
                action,
                generated,
            ),
            Pending::Generate { interactive, path, open_vault, policy } => settled(
                interactive,
                path,
                open_vault,
                generated_messages(generated),
            ),
        }
    }

    /// Asks the generator where the session needs it, and goes on.
    ///
    /// The result is that of [`Pending::complete`] for what the generator
    /// gave, which is as its policy admits and otherwise left to chance.
    pub fn finish(self) -> (result: (Session, Reaction))
        ensures
            exists|generated: Option<Result<Seq<Seq<char>>, VaultError>>|
                #![trigger complete_of(self@, generated)]
                drawn_for(policy_in_play(self@), generated) && (result.0@, result.1@)
                    == complete_of(self@, generated),
    {
        let generated = match self.policy() {
            Some(policy) => {
                let drawn = generate_many(&policy);
                proof {
                    if drawn is Ok {
                        let passwords = drawn->Ok_0;
                        assert forall|i: int| 0 <= i < texts(passwords@).len() implies policy.admits(
                            #[trigger] texts(passwords@)[i],
                        ) by {
                            assert(texts(passwords@)[i] == passwords[i]@);
                        }
                    }
                }
                Some(drawn)
            },
            None => None,
        };
        let ghost given = drawn_view(generated);
        let ghost before = self@;
        let result = self.complete(generated);
        assert((result.0@, result.1@) == complete_of(before, given));
        result
    }
}

impl Session {
    /// Starts a session for `plan`: the session and its first reaction.
    pub fn start(plan: Plan) -> (result: (Session, Reaction))
        ensures
            exists|generated: Option<Result<Seq<Seq<char>>, VaultError>>|
                #![trigger complete_of(begin_of(plan@), generated)]
                drawn_for(policy_in_play(begin_of(plan@)), generated) && (result.0@, result.1@)
                    == complete_of(begin_of(plan@), generated),
    {
        Session::begin(plan).finish()
    }

    /// The session after `event`, and its reaction.
    pub fn step(self, event: Event) -> (result: (Session, Reaction))
        ensures
            exists|generated: Option<Result<Seq<Seq<char>>, VaultError>>|
                #![trigger step_of(self@, event, generated)]
                drawn_for(policy_in_play(prepare_of(self@, event)), generated) && (
                result.0@,
                result.1@,
            ) == step_of(self@, event, generated),
    {
        let ghost before = self@;
        let pending = self.prepare(event);
        let result = pending.finish();
        proof {
            let generated = choose|generated: Option<Result<Seq<Seq<char>>, VaultError>>|
                #![trigger complete_of(pending@, generated)]
                drawn_for(policy_in_play(pending@), generated) && (result.0@, result.1@)
                    == complete_of(pending@, generated);
            assert((result.0@, result.1@) == step_of(before, event, generated));
        }
        result
    }

    /// The session after `event`, and its reaction, with `generated` in
    /// place of what the generator would give.
    pub fn step_with(
        self,
        event: Event,
        generated: Option<Result<Vec<String>, VaultError>>,
    ) -> (result: (Session, Reaction))
        ensures
            (result.0@, result.1@) == step_of(self@, event, drawn_view(generated)),
    {
        self.prepare(event).complete(generated)
    }
}


/// At the menu, the exit entry and the end of input both end the session
/// cleanly: nothing is shown, so no error either; no storage is read or
/// written; the generator is not asked; the vault is as it was.
pub proof fn lemma_exit_is_clean(
    s: SessionView,
    event: Event,
    generated: Option<Result<Seq<Seq<char>>, VaultError>>,
)
    requires
        s.stage is Menu,
        event is EndOfInput || (event matches Event::Line(line) && selection_of(trimmed(line@))
            == Some(Selection::Exit)),
    ensures
        policy_in_play(prepare_of(s, event)) is None,
        step_of(s, event, generated).0.stage is Exited,
        step_of(s, event, generated).0.vault == s.vault,
        step_of(s, event, generated).1.messages.len() == 0,
        step_of(s, event, generated).1.effect is Stop,
{
}

/// The line `7`, with or without its line ending, selects the exit entry.
pub proof fn lemma_seven_is_exit()
    ensures
        selection_of(trimmed("7"@)) == Some(Selection::Exit),
        selection_of(trimmed("7\n"@)) == Some(Selection::Exit),
{
    reveal_strlit("7");
    reveal_strlit("7\n");
    reveal_strlit("1");
    reveal_strlit("2");
    reveal_strlit("3");
    reveal_strlit("4");
    reveal_strlit("5");
    reveal_strlit("6");
    reveal_strlit("add");
    reveal_strlit("generate");
    reveal_strlit("list");
    reveal_strlit("remove");
    reveal_strlit("show");
    reveal_strlit("update master");
    let seven = "7"@;
    let line = "7\n"@;
    assert(crate::text::skip_blanks(seven, 0) == 0);
    assert(seven.subrange(0, 1) == seven);
    assert(crate::text::drop_blanks(seven, 1) == 1);
    assert(trimmed(seven) == seven);
    assert(crate::text::skip_blanks(line, 0) == 0);
    assert(line.subrange(0, 2) == line);
    assert(crate::text::drop_blanks(line, 1) == 1);
    assert(crate::text::drop_blanks(line, 2) == 1);
    assert(line.subrange(0, 1) == seven);
    assert(trimmed(line) == seven);
    assert(seven.len() == 1 && seven[0] == '7');
}

/// Generating opens no vault and asks for no passphrase: the plan goes
/// straight to the generator, and the session is over after it, with no
/// outside work left.
pub proof fn lemma_generate_needs_no_vault(
    policy: GenerationPolicy,
    generated: Option<Result<Seq<Seq<char>>, VaultError>>,
)
    ensures
        begin_of(PlanView::Generate { policy }) is Generate,
        policy_in_play(begin_of(PlanView::Generate { policy })) == Some(policy),
        complete_of(begin_of(PlanView::Generate { policy }), generated).0.vault is None,
        complete_of(begin_of(PlanView::Generate { policy }), generated).0.stage is Exited,
        complete_of(begin_of(PlanView::Generate { policy }), generated).1.effect is Stop,
        complete_of(begin_of(PlanView::Generate { policy }), generated).1.messages
            == generate_messages(generated),
{
}

/// Where storage does not open with the passphrase at hand, the failure is
/// shown and nothing else happens: no action is performed, nothing is
/// written, the generator is not asked, and the session holds no vault.
pub proof fn lemma_locked_vault_untouched(
    s: SessionView,
    stored: Option<crate::vault::SealedVault>,
    generated: Option<Result<Seq<Seq<char>>, VaultError>>,
)
    requires
        s.stage is Loading,
        open_outcome(stored_view(stored), s.stage->master) is Err,
    ensures
        policy_in_play(prepare_of(s, Event::Loaded(stored))) is None,
        step_of(s, Event::Loaded(stored), generated) == settle(
            s.interactive,
            s.path,
            None,
            seq![
                failure_of(open_outcome(stored_view(stored), s.stage->master)->Err_0),
            ],
        ),
        step_of(s, Event::Loaded(stored), generated).0.vault is None,
        !(step_of(s, Event::Loaded(stored), generated).1.effect is Store),
{
}

/// A command on a vault asks for the master passphrase first where none
/// was given, and reads storage only once it has one. Nothing is shown,
/// performed or written before that.
pub proof fn lemma_passphrase_before_storage(
    path: Seq<char>,
    master: Option<Seq<char>>,
    action: VaultActionView,
)
    ensures
        begin_of(PlanView::Vault { path, master, action }) is Done,
        begin_of(PlanView::Vault { path, master, action })->Done_session.vault is None,
        begin_of(PlanView::Vault { path, master, action })->Done_reaction.messages.len() == 0,
        master is None ==> begin_of(
            PlanView::Vault { path, master, action },
        )->Done_reaction.effect == (EffectView::ReadSecret { label: master_label() }),
        master is Some ==> begin_of(
            PlanView::Vault { path, master, action },
        )->Done_reaction.effect == (if action == (VaultActionView::UpdateMaster {
            new_master: None,
        }) {
            EffectView::ReadSecret { label: new_master_label() }
        } else {
            EffectView::Load { path }
        }),
{
}

} // verus!
