//! The life cycle of a proxy configuration on disk, as a machine that decides
//! and never acts. It hands its caller one action at a time (look whether a
//! path exists, copy, write or remove a file, make a link, run the validator,
//! reload the proxy) and is told how the action went; from that it decides
//! the next action, or how the request ends.
//!
//! A configuration is backed up before it is overwritten. When the validator
//! refuses the new text, or a step after the backup fails, the backup is
//! copied back and removed. A failed reload leaves the accepted
//! configuration in place.

use vstd::prelude::*;
use crate::config::NginxConfig;
use crate::error::{AppError, AppErrorView};
use crate::nginx::config::{
    render_nginx_config, render_text, validate_nginx_extra_config, validate_text,
};
use crate::nginx::models::{NginxProxy, ProxyView};
use crate::text::{join2, join3, to_chars, trim, trim_chars};

verus! {

/// What was asked for.
#[derive(Debug, Clone, Copy, PartialEq, Eq, Structural)]
pub enum Request {
    /// Put a configuration in place, new or over an existing one.
    Create,
    /// Replace a configuration that exists.
    Update,
    /// Take a configuration away.
    Remove,
}

/// The action whose result the machine waits for.
#[derive(Debug, Clone, Copy, PartialEq, Eq, Structural)]
pub enum Stage {
    /// Whether the directory of the configurations exists.
    CheckingDirectory,
    /// Whether the configuration exists already.
    CheckingExisting,
    /// The copy of the existing configuration to its backup.
    BackingUp,
    /// The writing of the new text.
    Writing,
    /// Whether the enabling link exists.
    CheckingLink,
    /// The removal of a stale enabling link.
    Unlinking,
    /// The making of the enabling link.
    Linking,
    /// The run of the validator.
    Validating,
    /// The removal of the backup of an accepted configuration.
    DiscardingBackup,
    /// The reload of the proxy.
    Reloading,
    /// The copy of the backup over the configuration.
    Restoring,
    /// The removal of the backup that was copied back.
    DroppingBackup,
    /// The removal of a refused configuration that had no predecessor.
    RemovingConfig,
    /// The removal of the link to a refused configuration.
    RemovingLink,
    /// Before a removal: whether the enabling link exists.
    FindingLink,
    /// For a removal: the removal of the enabling link.
    Disabling,
    /// For a removal: the removal of the configuration.
    Deleting,
    /// After a removal: the reload of the proxy.
    Refreshing,
}

/// One thing for the caller to do.
#[derive(Debug, Clone, PartialEq, Eq)]
pub enum Action {
    /// Find out whether anything exists at `path`.
    Probe { path: String },
    /// Copy the file `from` to `to`, replacing what is there.
    Copy { from: String, to: String },
    /// Make `content` the whole content of the file `path`.
    Write { path: String, content: String },
    /// Remove the file or link `path`.
    Remove { path: String },
    /// Make `link` a symbolic link to `target`.
    Link { target: String, link: String },
    /// Run the validator over the whole configuration tree.
    Validate,
    /// Ask the service manager to reload the proxy.
    Reload,
}

/// The mathematical content of an `Action`.
pub enum ActionView {
    Probe { path: Seq<char> },
    Copy { from: Seq<char>, to: Seq<char> },
    Write { path: Seq<char>, content: Seq<char> },
    Remove { path: Seq<char> },
    Link { target: Seq<char>, link: Seq<char> },
    Validate,
    Reload,
}

impl View for Action {
    type V = ActionView;

    open spec fn view(&self) -> ActionView {
        match self {
            Action::Probe { path } => ActionView::Probe { path: path@ },
            Action::Copy { from, to } => ActionView::Copy { from: from@, to: to@ },
            Action::Write { path, content } => ActionView::Write {
                path: path@,
                content: content@,
            },
            Action::Remove { path } => ActionView::Remove { path: path@ },
            Action::Link { target, link } => ActionView::Link { target: target@, link: link@ },
            Action::Validate => ActionView::Validate,
            Action::Reload => ActionView::Reload,
        }
    }
}

/// How an action went.
#[derive(Debug, Clone, PartialEq, Eq)]
pub enum Event {
    /// It was done; the path exists; the process ended well.
    Succeeded,
    /// The process ran and ended badly; the text is what it wrote to its
    /// error stream.
    Refused(String),
    /// It could not be done, or the process could not be run; the text is
    /// the reason.
    Failed(String),
}

/// The mathematical content of an `Event`.
pub enum EventView {
    Succeeded,
    Refused(Seq<char>),
    Failed(Seq<char>),
}

impl EventView {
    /// The text that came with the event.
    pub open spec fn detail(self) -> Seq<char> {
        match self {
            EventView::Succeeded => Seq::empty(),
            EventView::Refused(d) => d,
            EventView::Failed(d) => d,
        }
    }
}

impl View for Event {
    type V = EventView;

    open spec fn view(&self) -> EventView {
        match self {
            Event::Succeeded => EventView::Succeeded,
            Event::Refused(d) => EventView::Refused(d@),
            Event::Failed(d) => EventView::Failed(d@),
        }
    }
}

/// A request under way: what it is about, and what it waits for.
#[derive(Debug, Clone, PartialEq, Eq)]
pub struct Lifecycle {
    pub request: Request,
    pub stage: Stage,
    /// The name of the proxy, which is the name of its file.
    pub name: String,
    /// The domain of the proxy, for the message of success.
    pub domain: String,
    /// The directory of the configurations.
    pub directory: String,
    /// The file of the configuration.
    pub config_path: String,
    /// The link that enables the configuration.
    pub enabled_path: String,
    /// The backup of the configuration.
    pub backup_path: String,
    /// The new text of the configuration.
    pub content: String,
    /// Whether a backup was made.
    pub had_backup: bool,
    /// Whether what is being undone was refused by the validator, rather
    /// than broken by a failure.
    pub rejected: bool,
    /// The message of what is being undone.
    pub failure: String,
}

/// The mathematical content of a `Lifecycle`.
pub struct LifecycleView {
    pub request: Request,
    pub stage: Stage,
    pub name: Seq<char>,
    pub domain: Seq<char>,
    pub directory: Seq<char>,
    pub config_path: Seq<char>,
    pub enabled_path: Seq<char>,
    pub backup_path: Seq<char>,
    pub content: Seq<char>,
    pub had_backup: bool,
    pub rejected: bool,
    pub failure: Seq<char>,
}

impl View for Lifecycle {
    type V = LifecycleView;

    open spec fn view(&self) -> LifecycleView {
        LifecycleView {
            request: self.request,
            stage: self.stage,
            name: self.name@,
            domain: self.domain@,
            directory: self.directory@,
            config_path: self.config_path@,
            enabled_path: self.enabled_path@,
            backup_path: self.backup_path@,
            content: self.content@,
            had_backup: self.had_backup,
            rejected: self.rejected,
            failure: self.failure@,
        }
    }
}

/// What comes next: an action, with the machine that waits for its result,
/// or the end of the request, with the message of success or the error.
#[derive(Debug, PartialEq, Eq)]
pub enum Step {
    Perform(Action, Lifecycle),
    Finish(Result<String, AppError>),
}

/// The mathematical content of a `Step`.
pub enum StepView {
    Perform(ActionView, LifecycleView),
    Finish(Result<Seq<char>, AppErrorView>),
}

impl View for Step {
    type V = StepView;

    open spec fn view(&self) -> StepView {
        match self {
            Step::Perform(a, m) => StepView::Perform(a@, m@),
            Step::Finish(Ok(s)) => StepView::Finish(Ok(s@)),
            Step::Finish(Err(e)) => StepView::Finish(Err(e@)),
        }
    }
}

/// `s` can be the name of a file in a directory and of nothing else: it is
/// not empty, is neither `.` nor `..`, and holds no separator and no NUL.
pub open spec fn safe_segment(s: Seq<char>) -> bool {
    &&& s.len() > 0
    &&& s != seq!['.']
    &&& s != seq!['.', '.']
    &&& forall|i: int| 0 <= i < s.len() ==> s[i] != '/' && s[i] != '\\' && s[i] != '\0'
}

impl ProxyView {
    /// The name is a safe path segment, and domain and backend are not empty.
    pub open spec fn well_formed(self) -> bool {
        safe_segment(self.name) && self.domain.len() > 0 && self.backend.len() > 0
    }

    /// The definition with its extra text replaced by `extra`.
    pub open spec fn with_extra(self, extra: Seq<char>) -> ProxyView {
        ProxyView { extra_config: Some(extra), ..self }
    }
}

/// The file `name` in the directory `dir`.
pub open spec fn path_in(dir: Seq<char>, name: Seq<char>) -> Seq<char> {
    dir + "/"@ + name
}

/// The backup of the file `name` in the directory `dir`.
pub open spec fn backup_in(dir: Seq<char>, name: Seq<char>) -> Seq<char> {
    dir + "/"@ + name + ".backup"@
}

/// Why the definition `p` is refused before anything is done, if it is: its
/// name, domain or backend is unusable, or its extra text does not pass the check.
pub open spec fn refusal(p: ProxyView) -> Option<Seq<char>> {
    if !safe_segment(p.name) {
        Some("❌ Proxy adı yanlışdır"@)
    } else if p.domain.len() == 0 {
        Some("❌ Domain boş ola bilməz"@)
    } else if p.backend.len() == 0 {
        Some("❌ Backend boş ola bilməz"@)
    } else {
        match p.extra_config {
            Some(e) => if trim(e).len() > 0 {
                match validate_text(e) {
                    Ok(_) => None,
                    Err(m) => Some("❌ Əlavə konfiqurasiya xətası: "@ + m),
                }
            } else {
                None
            },
            None => None,
        }
    }
}

/// The definition that is written: `p` with its extra text, where it has
/// any that is not blank, laid out.
pub open spec fn settled(p: ProxyView) -> ProxyView {
    match p.extra_config {
        Some(e) => if trim(e).len() > 0 {
            match validate_text(e) {
                Ok(f) => p.with_extra(f),
                Err(_) => p,
            }
        } else {
            p
        },
        None => p,
    }
}

/// The machine for the definition `p`, which is to be written with the time
/// stamp `stamp` into the directories `available` and `enabled`.
pub open spec fn planned(
    request: Request,
    stage: Stage,
    available: Seq<char>,
    enabled: Seq<char>,
    p: ProxyView,
    stamp: Seq<char>,
) -> LifecycleView {
    LifecycleView {
        request,
        stage,
        name: p.name,
        domain: p.domain,
        directory: available,
        config_path: path_in(available, p.name),
        enabled_path: path_in(enabled, p.name),
        backup_path: backup_in(available, p.name),
        content: render_text(settled(p), stamp),
        had_backup: false,
        rejected: false,
        failure: Seq::empty(),
    }
}

/// How the creation of `p` begins: with its refusal, or with the question
/// whether the directory of the configurations exists.
pub open spec fn creation(
    available: Seq<char>,
    enabled: Seq<char>,
    p: ProxyView,
    stamp: Seq<char>,
) -> StepView {
    match refusal(p) {
        Some(m) => StepView::Finish(Err(AppErrorView::ValidationError(m))),
        None => StepView::Perform(
            ActionView::Probe { path: available },
            planned(Request::Create, Stage::CheckingDirectory, available, enabled, p, stamp),
        ),
    }
}

/// How the update of the proxy `name` to `p` begins: with the refusal of a
/// definition under another name or of an unusable one, or with the question
/// whether the directory of the configurations exists.
pub open spec fn update(
    available: Seq<char>,
    enabled: Seq<char>,
    name: Seq<char>,
    p: ProxyView,
    stamp: Seq<char>,
) -> StepView {
    if p.name != name {
        StepView::Finish(
            Err(AppErrorView::ValidationError("URL-dəki ad və body-dəki ad uyğun gəlmir"@)),
        )
    } else {
        match refusal(p) {
            Some(m) => StepView::Finish(Err(AppErrorView::ValidationError(m))),
            None => StepView::Perform(
                ActionView::Probe { path: available },
                planned(Request::Update, Stage::CheckingDirectory, available, enabled, p, stamp),
            ),
        }
    }
}

/// How the removal of the proxy `name` begins: with the refusal of an unsafe
/// name, or with the question whether the enabling link exists.
pub open spec fn removal(available: Seq<char>, enabled: Seq<char>, name: Seq<char>) -> StepView {
    if !safe_segment(name) {
        StepView::Finish(Err(AppErrorView::ValidationError("❌ Proxy adı yanlışdır"@)))
    } else {
        StepView::Perform(
            ActionView::Probe { path: path_in(enabled, name) },
            LifecycleView {
                request: Request::Remove,
                stage: Stage::FindingLink,
                name,
                domain: Seq::empty(),
                directory: available,
                config_path: path_in(available, name),
                enabled_path: path_in(enabled, name),
                backup_path: backup_in(available, name),
                content: Seq::empty(),
                had_backup: false,
                rejected: false,
                failure: Seq::empty(),
            },
        )
    }
}

impl LifecycleView {
    /// The machine at the stage `stage`.
    pub open spec fn at(self, stage: Stage) -> LifecycleView {
        LifecycleView { stage, ..self }
    }

    /// The step that asks for `action` and waits for it at `stage`.
    pub open spec fn ask(self, action: ActionView, stage: Stage) -> StepView {
        StepView::Perform(action, self.at(stage))
    }

    pub open spec fn probe_config(self) -> ActionView {
        ActionView::Probe { path: self.config_path }
    }

    pub open spec fn probe_link(self) -> ActionView {
        ActionView::Probe { path: self.enabled_path }
    }

    pub open spec fn back_up(self) -> ActionView {
        ActionView::Copy { from: self.config_path, to: self.backup_path }
    }

    pub open spec fn restore(self) -> ActionView {
        ActionView::Copy { from: self.backup_path, to: self.config_path }
    }

    pub open spec fn write(self) -> ActionView {
        ActionView::Write { path: self.config_path, content: self.content }
    }

    pub open spec fn link(self) -> ActionView {
        ActionView::Link { target: self.config_path, link: self.enabled_path }
    }

    pub open spec fn remove_config(self) -> ActionView {
        ActionView::Remove { path: self.config_path }
    }

    pub open spec fn remove_link(self) -> ActionView {
        ActionView::Remove { path: self.enabled_path }
    }

    pub open spec fn remove_backup(self) -> ActionView {
        ActionView::Remove { path: self.backup_path }
    }

    /// `text`, and behind it `hint` where the request is a creation: the
    /// messages of a creation end with advice that those of an update lack.
    pub open spec fn advised(self, text: Seq<char>, hint: Seq<char>) -> Seq<char> {
        if self.request == Request::Create {
            text + hint
        } else {
            text
        }
    }

    /// The step after a failure with the message `failure`: where a backup
    /// was made it is copied back first; else the request ends there.
    pub open spec fn undo(self, failure: Seq<char>) -> StepView {
        if self.had_backup {
            StepView::Perform(
                self.restore(),
                LifecycleView { stage: Stage::Restoring, rejected: false, failure, ..self },
            )
        } else {
            StepView::Finish(Err(AppErrorView::NginxError(failure)))
        }
    }

    /// The step after the validator refused the new text with the output `output`.
    pub open spec fn reject(self, output: Seq<char>) -> StepView {
        if self.had_backup {
            StepView::Perform(
                self.restore(),
                LifecycleView { stage: Stage::Restoring, rejected: true, failure: output, ..self },
            )
        } else {
            StepView::Perform(
                self.remove_config(),
                LifecycleView { stage: Stage::RemovingConfig, failure: output, ..self },
            )
        }
    }

    /// The error that ends a request whose configuration was restored.
    pub open spec fn restored(self) -> AppErrorView {
        if self.rejected {
            AppErrorView::ValidationError(
                "❌ Nginx konfiqurasiya xətası: "@ + self.failure
                    + "\n\n✅ Əvvəlki konfiqurasiya bərpa edildi."@,
            )
        } else {
            AppErrorView::NginxError(self.failure + "\n\n✅ Əvvəlki konfiqurasiya bərpa edildi."@)
        }
    }

    /// The error that ends a request whose configuration could not be
    /// restored, for the reason `why`: it names both failures.
    pub open spec fn unrestored(self, why: Seq<char>) -> AppErrorView {
        if self.rejected {
            AppErrorView::NginxError(
                "❌ Nginx xətası: "@ + self.failure + "\n❌ Yedək bərpa edilə bilmədi: "@ + why,
            )
        } else {
            AppErrorView::NginxError(self.failure + "\n❌ Yedək bərpa edilə bilmədi: "@ + why)
        }
    }

    /// The message of success of a creation or an update.
    pub open spec fn done(self) -> Seq<char> {
        if self.request == Request::Create {
            "✅ "@ + self.domain + " proxy konfiqurasiyası yaradıldı və aktiv edildi"@
        } else {
            "✅ "@ + self.domain + " proxy konfiqurasiyası yeniləndi"@
        }
    }

    /// What the machine does when it is told `event` of the action it waits for.
    pub open spec fn next(self, event: EventView) -> StepView {
        let ok = event is Succeeded;
        let d = event.detail();
        match self.stage {
            Stage::CheckingDirectory => if ok {
                self.ask(self.probe_config(), Stage::CheckingExisting)
            } else {
                StepView::Finish(
                    Err(
                        AppErrorView::ConfigError(
                            "Nginx qovluğu tapılmadı: "@ + self.directory
                                + ". Nginx quraşdırılıb?"@,
                        ),
                    ),
                )
            },
            Stage::CheckingExisting => if ok {
                self.ask(self.back_up(), Stage::BackingUp)
            } else if self.request == Request::Update {
                StepView::Finish(
                    Err(AppErrorView::NotFound("Konfiqurasiya tapılmadı: "@ + self.name)),
                )
            } else {
                self.ask(self.write(), Stage::Writing)
            },
            Stage::BackingUp => if ok {
                StepView::Perform(
                    self.write(),
                    LifecycleView { stage: Stage::Writing, had_backup: true, ..self },
                )
            } else if self.request == Request::Create {
                StepView::Finish(
                    Err(
                        AppErrorView::NginxError(
                            "Mövcud konfiqurasiya yedəklənə bilmədi: "@ + d
                                + ". Dəyişiklik təhlükəlidir."@,
                        ),
                    ),
                )
            } else {
                StepView::Finish(Err(AppErrorView::NginxError("Yedək yaradıla bilmədi: "@ + d)))
            },
            Stage::Writing => if ok {
                self.ask(self.probe_link(), Stage::CheckingLink)
            } else {
                self.undo(
                    self.advised(
                        "Fayl yazıla bilmədi: "@ + d,
                        ". Root icazəsi lazımdır. Container root olaraq çalışmalıdır."@,
                    ),
                )
            },
            Stage::CheckingLink => if !ok {
                self.ask(self.link(), Stage::Linking)
            } else if self.request == Request::Create {
                self.ask(self.remove_link(), Stage::Unlinking)
            } else {
                self.ask(ActionView::Validate, Stage::Validating)
            },
            Stage::Unlinking => self.ask(self.link(), Stage::Linking),
            Stage::Linking => if ok {
                self.ask(ActionView::Validate, Stage::Validating)
            } else {
                self.undo(
                    self.advised("Symlink yaradıla bilmədi: "@ + d, ". Root icazəsi lazımdır."@),
                )
            },
            Stage::Validating => match event {
                EventView::Succeeded => if self.had_backup {
                    self.ask(self.remove_backup(), Stage::DiscardingBackup)
                } else {
                    self.ask(ActionView::Reload, Stage::Reloading)
                },
                EventView::Refused(output) => self.reject(output),
                EventView::Failed(why) => self.undo(
                    self.advised("Nginx test edilə bilmədi: "@ + why, ". Nginx quraşdırılıb?"@),
                ),
            },
            Stage::DiscardingBackup => self.ask(ActionView::Reload, Stage::Reloading),
            Stage::Reloading => match event {
                EventView::Succeeded => StepView::Finish(Ok(self.done())),
                EventView::Refused(output) => StepView::Finish(
                    Err(
                        AppErrorView::NginxError(
                            self.advised(
                                "Nginx reload edilə bilmədi: "@ + output,
                                ". Systemctl icazəsi lazımdır."@,
                            ),
                        ),
                    ),
                ),
                EventView::Failed(why) => StepView::Finish(
                    Err(
                        AppErrorView::NginxError(
                            self.advised(
                                "Systemctl çalışdırıla bilmədi: "@ + why,
                                ". Root icazəsi lazımdır."@,
                            ),
                        ),
                    ),
                ),
            },
            Stage::Restoring => if ok {
                self.ask(self.remove_backup(), Stage::DroppingBackup)
            } else {
                StepView::Finish(Err(self.unrestored(d)))
            },
            Stage::DroppingBackup => StepView::Finish(Err(self.restored())),
            Stage::RemovingConfig => self.ask(self.remove_link(), Stage::RemovingLink),
            Stage::RemovingLink => StepView::Finish(
                Err(
                    AppErrorView::ValidationError(
                        "❌ Nginx konfiqurasiya xətası: "@ + self.failure
                            + "\n\nYanlış konfiqurasiya silindi."@,
                    ),
                ),
            ),
            Stage::FindingLink => if ok {
                self.ask(self.remove_link(), Stage::Disabling)
            } else {
                self.ask(self.remove_config(), Stage::Deleting)
            },
            Stage::Disabling => if ok {
                self.ask(self.remove_config(), Stage::Deleting)
            } else {
                StepView::Finish(
                    Err(
                        AppErrorView::NginxError(
                            "Enabled link silinə bilmədi: "@ + d + ". Root icazəsi lazımdır."@,
                        ),
                    ),
                )
            },
            Stage::Deleting => if ok {
                self.ask(ActionView::Reload, Stage::Refreshing)
            } else {
                StepView::Finish(
                    Err(
                        AppErrorView::NginxError(
                            "Silinə bilmədi: "@ + d + ". Root icazəsi lazımdır."@,
                        ),
                    ),
                )
            },
            Stage::Refreshing => match event {
                EventView::Failed(why) => StepView::Finish(
                    Ok("✅ "@ + self.name + " silindi (nginx reload edilmədi: "@ + why + ")"@),
                ),
                _ => StepView::Finish(Ok("✅ "@ + self.name + " proxy konfiqurasiyası silindi"@)),
            },
        }
    }
}

/// Whether `name` is a safe path segment.
pub fn is_safe_segment(name: &str) -> (r: bool)
    ensures
        r == safe_segment(name@),
{
    let v = to_chars(name);
    let n = v.len();
    if n == 0 {
        return false;
    }
    if n == 1 && v[0] == '.' {
        assert(v@ =~= seq!['.']);
        return false;
    }
    if n == 2 && v[0] == '.' && v[1] == '.' {
        assert(v@ =~= seq!['.', '.']);
        return false;
    }
    assert(v@ != seq!['.']) by {
        if v@ == seq!['.'] {
            assert(seq!['.'].len() == 1);
            assert(seq!['.'][0] == '.');
        }
    }
    assert(v@ != seq!['.', '.']) by {
        if v@ == seq!['.', '.'] {
            assert(seq!['.', '.'].len() == 2);
            assert(seq!['.', '.'][0] == '.');
            assert(seq!['.', '.'][1] == '.');
        }
    }
    let mut i: usize = 0;
    while i < n
        invariant
            i <= n == v.len(),
            v@ == name@,
            forall|j: int| 0 <= j < i ==> v@[j] != '/' && v@[j] != '\\' && v@[j] != '\0',
        decreases n - i,
    {
        let c = v[i];
        if c == '/' || c == '\\' || c == '\0' {
            assert(name@[i as int] == c);
            return false;
        }
        i += 1;
    }
    true
}

impl NginxProxy {
    /// Whether the name is a safe path segment and domain and backend are
    /// not empty.
    pub fn is_well_formed(&self) -> (r: bool)
        ensures
            r == self@.well_formed(),
    {
        is_safe_segment(self.name.as_str()) && !self.domain.as_str().is_empty()
            && !self.backend.as_str().is_empty()
    }
}

/// Checks the definition `proxy` before anything is done for it. Returns the
/// definition that is to be written, with its extra text laid out, or the
/// reason for which the definition is refused.
pub fn settle(proxy: NginxProxy) -> (r: Result<NginxProxy, String>)
    ensures
        match r {
            Ok(q) => refusal(proxy@) is None && q@ == settled(proxy@),
            Err(m) => refusal(proxy@) == Some(m@),
        },
{
    if !is_safe_segment(proxy.name.as_str()) {
        return Err("❌ Proxy adı yanlışdır".to_string());
    }
    if proxy.domain.as_str().is_empty() {
        return Err("❌ Domain boş ola bilməz".to_string());
    }
    if proxy.backend.as_str().is_empty() {
        return Err("❌ Backend boş ola bilməz".to_string());
    }
    let NginxProxy { name, domain, backend, ssl, extra_config } = proxy;
    match extra_config {
        Some(extra) => {
            let text = to_chars(extra.as_str());
            let trimmed = trim_chars(&text);
            if trimmed.len() > 0 {
                match validate_nginx_extra_config(extra.as_str()) {
                    Ok(formatted) => Ok(
                        NginxProxy { name, domain, backend, ssl, extra_config: Some(formatted) },
                    ),
                    Err(m) => Err(join2("❌ Əlavə konfiqurasiya xətası: ", m.as_str())),
                }
            } else {
                Ok(NginxProxy { name, domain, backend, ssl, extra_config: Some(extra) })
            }
        },
        None => Ok(NginxProxy { name, domain, backend, ssl, extra_config: None }),
    }
}

/// The machine for the settled definition `q`.
fn plan(request: Request, stage: Stage, cfg: &NginxConfig, q: &NginxProxy, stamp: &str) -> (m:
    Lifecycle)
    ensures
        m@ == (LifecycleView {
            request,
            stage,
            name: q@.name,
            domain: q@.domain,
            directory: cfg.sites_available_path@,
            config_path: path_in(cfg.sites_available_path@, q@.name),
            enabled_path: path_in(cfg.sites_enabled_path@, q@.name),
            backup_path: backup_in(cfg.sites_available_path@, q@.name),
            content: render_text(q@, stamp@),
            had_backup: false,
            rejected: false,
            failure: Seq::empty(),
        }),
{
    let config_path = join3(cfg.sites_available_path.as_str(), "/", q.name.as_str());
    let backup_path = join2(config_path.as_str(), ".backup");
    Lifecycle {
        request,
        stage,
        name: q.name.clone(),
        domain: q.domain.clone(),
        directory: cfg.sites_available_path.clone(),
        config_path,
        enabled_path: join3(cfg.sites_enabled_path.as_str(), "/", q.name.as_str()),
        backup_path,
        content: render_nginx_config(q, stamp),
        had_backup: false,
        rejected: false,
        failure: String::new(),
    }
}

/// Begins the creation of `proxy`, whose text is to carry the time stamp
/// `stamp`. A definition that is refused ends the request before any action.
pub fn begin_create(cfg: &NginxConfig, proxy: NginxProxy, stamp: &str) -> (step: Step)
    ensures
        step@ == creation(cfg.sites_available_path@, cfg.sites_enabled_path@, proxy@, stamp@),
{
    match settle(proxy) {
        Err(m) => Step::Finish(Err(AppError::ValidationError(m))),
        Ok(q) => {
            let m = plan(Request::Create, Stage::CheckingDirectory, cfg, &q, stamp);
            Step::Perform(Action::Probe { path: cfg.sites_available_path.clone() }, m)
        },
    }
}

/// Begins the update of the proxy `name` to the definition `proxy`, whose
/// text is to carry the time stamp `stamp`. A definition under another name,
/// or one that is refused, ends the request before any action.
pub fn begin_update(cfg: &NginxConfig, name: &str, proxy: NginxProxy, stamp: &str) -> (step: Step)
    ensures
        step@ == update(
            cfg.sites_available_path@,
            cfg.sites_enabled_path@,
            name@,
            proxy@,
            stamp@,
        ),
{
    let asked = name.to_string();
    if !(proxy.name == asked) {
        return Step::Finish(
            Err(AppError::ValidationError("URL-dəki ad və body-dəki ad uyğun gəlmir".to_string())),
        );
    }
    match settle(proxy) {
        Err(m) => Step::Finish(Err(AppError::ValidationError(m))),
        Ok(q) => {
            let m = plan(Request::Update, Stage::CheckingDirectory, cfg, &q, stamp);
            Step::Perform(Action::Probe { path: cfg.sites_available_path.clone() }, m)
        },
    }
}

/// Begins the removal of the proxy `name`. An unsafe name ends the request
/// before any action.
pub fn begin_remove(cfg: &NginxConfig, name: &str) -> (step: Step)
    ensures
        step@ == removal(cfg.sites_available_path@, cfg.sites_enabled_path@, name@),
{
    if !is_safe_segment(name) {
        return Step::Finish(Err(AppError::ValidationError("❌ Proxy adı yanlışdır".to_string())));
    }
    let config_path = join3(cfg.sites_available_path.as_str(), "/", name);
    let backup_path = join2(config_path.as_str(), ".backup");
    let m = Lifecycle {
        request: Request::Remove,
        stage: Stage::FindingLink,
        name: name.to_string(),
        domain: String::new(),
        directory: cfg.sites_available_path.clone(),
        config_path,
        enabled_path: join3(cfg.sites_enabled_path.as_str(), "/", name),
        backup_path,
        content: String::new(),
        had_backup: false,
        rejected: false,
        failure: String::new(),
    };
    let action = m.probe_link();
    Step::Perform(action, m)
}

impl Lifecycle {
    fn ask(self, action: Action, stage: Stage) -> (step: Step)
        ensures
            step@ == self@.ask(action@, stage),
    {
        let mut m = self;
        m.stage = stage;
        Step::Perform(action, m)
    }

    fn probe_config(&self) -> (a: Action)
        ensures
            a@ == self@.probe_config(),
    {
        Action::Probe { path: self.config_path.clone() }
    }

    fn probe_link(&self) -> (a: Action)
        ensures
            a@ == self@.probe_link(),
    {
        Action::Probe { path: self.enabled_path.clone() }
    }

    fn back_up(&self) -> (a: Action)
        ensures
            a@ == self@.back_up(),
    {
        Action::Copy { from: self.config_path.clone(), to: self.backup_path.clone() }
    }

    fn restore(&self) -> (a: Action)
        ensures
            a@ == self@.restore(),
    {
        Action::Copy { from: self.backup_path.clone(), to: self.config_path.clone() }
    }

    fn write(&self) -> (a: Action)
        ensures
            a@ == self@.write(),
    {
        Action::Write { path: self.config_path.clone(), content: self.content.clone() }
    }

    fn link(&self) -> (a: Action)
        ensures
            a@ == self@.link(),
    {
        Action::Link { target: self.config_path.clone(), link: self.enabled_path.clone() }
    }

    fn remove_config(&self) -> (a: Action)
        ensures
            a@ == self@.remove_config(),
    {
        Action::Remove { path: self.config_path.clone() }
    }

    fn remove_link(&self) -> (a: Action)
        ensures
            a@ == self@.remove_link(),
    {
        Action::Remove { path: self.enabled_path.clone() }
    }

    fn remove_backup(&self) -> (a: Action)
        ensures
            a@ == self@.remove_backup(),
    {
        Action::Remove { path: self.backup_path.clone() }
    }

    fn advised(&self, text: String, hint: &str) -> (r: String)
        ensures
            r@ == self@.advised(text@, hint@),
    {
        match self.request {
            Request::Create => join2(text.as_str(), hint),
            _ => text,
        }
    }

    fn undo(self, failure: String) -> (step: Step)
        ensures
            step@ == self@.undo(failure@),
    {
        if self.had_backup {
            let action = self.restore();
            let mut m = self;
            m.stage = Stage::Restoring;
            m.rejected = false;
            m.failure = failure;
            Step::Perform(action, m)
        } else {
            Step::Finish(Err(AppError::NginxError(failure)))
        }
    }

    fn reject(self, output: String) -> (step: Step)
        ensures
            step@ == self@.reject(output@),
    {
        if self.had_backup {
            let action = self.restore();
            let mut m = self;
            m.stage = Stage::Restoring;
            m.rejected = true;
            m.failure = output;
            Step::Perform(action, m)
        } else {
            let action = self.remove_config();
            let mut m = self;
            m.stage = Stage::RemovingConfig;
            m.failure = output;
            Step::Perform(action, m)
        }
    }

    fn restored(&self) -> (e: AppError)
        ensures
            e@ == self@.restored(),
    {
        if self.rejected {
            AppError::ValidationError(
                join3(
                    "❌ Nginx konfiqurasiya xətası: ",
                    self.failure.as_str(),
                    "\n\n✅ Əvvəlki konfiqurasiya bərpa edildi.",
                ),
            )
        } else {
            AppError::NginxError(
                join2(self.failure.as_str(), "\n\n✅ Əvvəlki konfiqurasiya bərpa edildi."),
            )
        }
    }

    fn unrestored(&self, why: &str) -> (e: AppError)
        ensures
            e@ == self@.unrestored(why@),
    {
        if self.rejected {
            let head = join3(
                "❌ Nginx xətası: ",
                self.failure.as_str(),
                "\n❌ Yedək bərpa edilə bilmədi: ",
            );
            AppError::NginxError(join2(head.as_str(), why))
        } else {
            AppError::NginxError(
                join3(self.failure.as_str(), "\n❌ Yedək bərpa edilə bilmədi: ", why),
            )
        }
    }

    fn done(&self) -> (r: String)
        ensures
            r@ == self@.done(),
    {
        match self.request {
            Request::Create => join3(
                "✅ ",
                self.domain.as_str(),
                " proxy konfiqurasiyası yaradıldı və aktiv edildi",
            ),
            _ => join3("✅ ", self.domain.as_str(), " proxy konfiqurasiyası yeniləndi"),
        }
    }

    /// Tells the machine how the action it waits for went, and returns what
    /// comes next.
    pub fn advance(self, event: Event) -> (step: Step)
        ensures
            step@ == self@.next(event@),
    {
        let (ok, refused, detail) = match event {
            Event::Succeeded => (true, false, String::new()),
            Event::Refused(d) => (false, true, d),
            Event::Failed(d) => (false, false, d),
        };
        let d = detail.as_str();
        match self.stage {
            Stage::CheckingDirectory => {
                if ok {
                    let action = self.probe_config();
                    self.ask(action, Stage::CheckingExisting)
                } else {
                    Step::Finish(
                        Err(
                            AppError::ConfigError(
                                join3(
                                    "Nginx qovluğu tapılmadı: ",
                                    self.directory.as_str(),
                                    ". Nginx quraşdırılıb?",
                                ),
                            ),
                        ),
                    )
                }
            },
            Stage::CheckingExisting => {
                if ok {
                    let action = self.back_up();
                    self.ask(action, Stage::BackingUp)
                } else {
                    match self.request {
                        Request::Update => Step::Finish(
                            Err(
                                AppError::NotFound(
                                    join2("Konfiqurasiya tapılmadı: ", self.name.as_str()),
                                ),
                            ),
                        ),
                        _ => {
                            let action = self.write();
                            self.ask(action, Stage::Writing)
                        },
                    }
                }
            },
            Stage::BackingUp => {
                if ok {
                    let action = self.write();
                    let mut m = self;
                    m.stage = Stage::Writing;
                    m.had_backup = true;
                    Step::Perform(action, m)
                } else {
                    match self.request {
                        Request::Create => Step::Finish(
                            Err(
                                AppError::NginxError(
                                    join3(
                                        "Mövcud konfiqurasiya yedəklənə bilmədi: ",
                                        d,
                                        ". Dəyişiklik təhlükəlidir.",
                                    ),
                                ),
                            ),
                        ),
                        _ => Step::Finish(
                            Err(AppError::NginxError(join2("Yedək yaradıla bilmədi: ", d))),
                        ),
                    }
                }
            },
            Stage::Writing => {
                if ok {
                    let action = self.probe_link();
                    self.ask(action, Stage::CheckingLink)
                } else {
                    let failure = self.advised(
                        join2("Fayl yazıla bilmədi: ", d),
                        ". Root icazəsi lazımdır. Container root olaraq çalışmalıdır.",
                    );
                    self.undo(failure)
                }
            },
            Stage::CheckingLink => {
                if !ok {
                    let action = self.link();
                    self.ask(action, Stage::Linking)
                } else {
                    match self.request {
                        Request::Create => {
                            let action = self.remove_link();
                            self.ask(action, Stage::Unlinking)
                        },
                        _ => self.ask(Action::Validate, Stage::Validating),
                    }
                }
            },
            Stage::Unlinking => {
                let action = self.link();
                self.ask(action, Stage::Linking)
            },
            Stage::Linking => {
                if ok {
                    self.ask(Action::Validate, Stage::Validating)
                } else {
                    let failure = self.advised(
                        join2("Symlink yaradıla bilmədi: ", d),
                        ". Root icazəsi lazımdır.",
                    );
                    self.undo(failure)
                }
            },
            Stage::Validating => {
                if ok {
                    if self.had_backup {
                        let action = self.remove_backup();
                        self.ask(action, Stage::DiscardingBackup)
                    } else {
                        self.ask(Action::Reload, Stage::Reloading)
                    }
                } else if refused {
                    self.reject(detail)
                } else {
                    let failure = self.advised(
                        join2("Nginx test edilə bilmədi: ", d),
                        ". Nginx quraşdırılıb?",
                    );
                    self.undo(failure)
                }
            },
            Stage::DiscardingBackup => self.ask(Action::Reload, Stage::Reloading),
            Stage::Reloading => {
                if ok {
                    Step::Finish(Ok(self.done()))
                } else if refused {
                    Step::Finish(
                        Err(
                            AppError::NginxError(
                                self.advised(
                                    join2("Nginx reload edilə bilmədi: ", d),
                                    ". Systemctl icazəsi lazımdır.",
                                ),
                            ),
                        ),
                    )
                } else {
                    Step::Finish(
                        Err(
                            AppError::NginxError(
                                self.advised(
                                    join2("Systemctl çalışdırıla bilmədi: ", d),
                                    ". Root icazəsi lazımdır.",
                                ),
                            ),
                        ),
                    )
                }
            },
            Stage::Restoring => {
                if ok {
                    let action = self.remove_backup();
                    self.ask(action, Stage::DroppingBackup)
                } else {
                    Step::Finish(Err(self.unrestored(d)))
                }
            },
            Stage::DroppingBackup => Step::Finish(Err(self.restored())),
            Stage::RemovingConfig => {
                let action = self.remove_link();
                self.ask(action, Stage::RemovingLink)
            },
            Stage::RemovingLink => Step::Finish(
                Err(
                    AppError::ValidationError(
                        join3(
                            "❌ Nginx konfiqurasiya xətası: ",
                            self.failure.as_str(),
                            "\n\nYanlış konfiqurasiya silindi.",
                        ),
                    ),
                ),
            ),
            Stage::FindingLink => {
                if ok {
                    let action = self.remove_link();
                    self.ask(action, Stage::Disabling)
                } else {
                    let action = self.remove_config();
                    self.ask(action, Stage::Deleting)
                }
            },
            Stage::Disabling => {
                if ok {
                    let action = self.remove_config();
                    self.ask(action, Stage::Deleting)
                } else {
                    Step::Finish(
                        Err(
                            AppError::NginxError(
                                join3(
                                    "Enabled link silinə bilmədi: ",
                                    d,
                                    ". Root icazəsi lazımdır.",
                                ),
                            ),
                        ),
                    )
                }
            },
            Stage::Deleting => {
                if ok {
                    self.ask(Action::Reload, Stage::Refreshing)
                } else {
                    Step::Finish(
                        Err(
                            AppError::NginxError(
                                join3("Silinə bilmədi: ", d, ". Root icazəsi lazımdır."),
                            ),
                        ),
                    )
                }
            },
            Stage::Refreshing => {
                if !ok && !refused {
                    let head = join3("✅ ", self.name.as_str(), " silindi (nginx reload edilmədi: ");
                    Step::Finish(Ok(join3(head.as_str(), d, ")")))
                } else {
                    Step::Finish(
                        Ok(join3("✅ ", self.name.as_str(), " proxy konfiqurasiyası silindi")),
                    )
                }
            },
        }
    }
}

} // verus!
