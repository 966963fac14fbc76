//! What the life cycle does to the files it manages, shown on a model of the
//! host: a map from paths to what is there, and for every action whether the
//! host carries it out.

use vstd::prelude::*;
use crate::error::AppErrorView;
use crate::nginx::config::{format_text, render_text, validate_text};
use crate::nginx::format_laws::{lemma_format_idempotent, lemma_validate_stable};
use crate::nginx::lifecycle::{
    backup_in, creation, path_in, planned, refusal, removal, safe_segment, settled, update,
    ActionView, EventView, LifecycleView, Request, Stage, StepView,
};
use crate::nginx::models::ProxyView;
use crate::text::trim;

verus! {

/// What is at a path.
pub enum Node {
    /// A file with this content.
    File(Seq<char>),
    /// A symbolic link to this path.
    Link(Seq<char>),
    /// A directory.
    Directory,
}

/// A host: what is at each of its paths, and how it takes each action that
/// is not a question about a path. An action that it does not carry out
/// changes nothing.
pub struct Host {
    pub nodes: Map<Seq<char>, Node>,
    pub verdicts: spec_fn(ActionView) -> EventView,
}

impl Host {
    /// Something is at `path`.
    pub open spec fn has(self, path: Seq<char>) -> bool {
        self.nodes.dom().contains(path)
    }

    /// What the host answers to `action`: whether the path exists, for a
    /// question; its verdict, for anything else.
    pub open spec fn answer(self, action: ActionView) -> EventView {
        match action {
            ActionView::Probe { path } => if self.has(path) {
                EventView::Succeeded
            } else {
                EventView::Refused(Seq::empty())
            },
            _ => (self.verdicts)(action),
        }
    }

    /// The host with `node` at `path`.
    pub open spec fn with(self, path: Seq<char>, node: Node) -> Host {
        Host { nodes: self.nodes.insert(path, node), ..self }
    }

    /// The host with nothing at `path`.
    pub open spec fn without(self, path: Seq<char>) -> Host {
        Host { nodes: self.nodes.remove(path), ..self }
    }

    /// The host after `action` was carried out.
    pub open spec fn carried_out(self, action: ActionView) -> Host {
        match action {
            ActionView::Copy { from, to } => self.with(to, self.nodes[from]),
            ActionView::Write { path, content } => self.with(path, Node::File(content)),
            ActionView::Remove { path } => self.without(path),
            ActionView::Link { target, link } => self.with(link, Node::Link(target)),
            _ => self,
        }
    }

    /// The host after it was asked for `action`.
    pub open spec fn after(self, action: ActionView) -> Host {
        if self.answer(action) is Succeeded {
            self.carried_out(action)
        } else {
            self
        }
    }

    /// The host carries out every action on files and links.
    pub open spec fn reliable(self) -> bool {
        forall|a: ActionView|
            (a is Copy || a is Write || a is Remove || a is Link) ==> (#[trigger] (self.verdicts)(
                a,
            )) is Succeeded
    }
}

/// How a request ends on a host, and what the host is then.
pub struct Ending {
    pub host: Host,
    pub verdict: Result<Seq<char>, AppErrorView>,
}

/// The request that stands at `step`, carried through on `host` for at most
/// `limit` actions.
pub open spec fn run(step: StepView, host: Host, limit: nat) -> Option<Ending>
    decreases limit,
{
    match step {
        StepView::Finish(verdict) => Some(Ending { host, verdict }),
        StepView::Perform(action, machine) => if limit == 0 {
            None
        } else {
            run(machine.next(host.answer(action)), host.after(action), (limit - 1) as nat)
        },
    }
}

/// No request needs more actions than this.
pub open spec fn enough() -> nat {
    12
}

/// The three paths of the proxy `name` are different paths.
pub open spec fn separate_paths(available: Seq<char>, enabled: Seq<char>, name: Seq<char>) -> bool {
    &&& path_in(enabled, name) != path_in(available, name)
    &&& path_in(enabled, name) != backup_in(available, name)
}

proof fn lemma_backup_is_another_path(available: Seq<char>, name: Seq<char>)
    ensures
        backup_in(available, name) != path_in(available, name),
        path_in(available, name) != available,
        backup_in(available, name) != available,
{
    reveal_strlit("/");
    reveal_strlit(".backup");
    assert(path_in(available, name).len() == available.len() + 1 + name.len());
    assert(backup_in(available, name).len() == available.len() + 1 + name.len() + 7);
}

/// A definition that is refused ends the request at once: the host is not
/// asked for anything and stays as it is.
pub proof fn lemma_refused_definition_changes_nothing(
    available: Seq<char>,
    enabled: Seq<char>,
    p: ProxyView,
    stamp: Seq<char>,
    host: Host,
)
    requires
        refusal(p) is Some,
    ensures
        run(creation(available, enabled, p, stamp), host, enough()) == Some(
            Ending { host, verdict: Err(AppErrorView::ValidationError(refusal(p)->Some_0)) },
        ),
        run(update(available, enabled, p.name, p, stamp), host, enough()) == Some(
            Ending { host, verdict: Err(AppErrorView::ValidationError(refusal(p)->Some_0)) },
        ),
{
}

/// Where the validator refuses the new text of a configuration that exists,
/// and the host carries out every action on files, the creation ends with a
/// validation error that tells of the restoration; the configuration is then
/// what it was, no backup is left, and the link enables the configuration.
/// Nothing else on the host has changed.
pub proof fn lemma_refused_creation_restores(
    available: Seq<char>,
    enabled: Seq<char>,
    p: ProxyView,
    stamp: Seq<char>,
    host: Host,
    output: Seq<char>,
)
    requires
        refusal(p) is None,
        separate_paths(available, enabled, p.name),
        host.reliable(),
        host.has(available),
        host.has(path_in(available, p.name)),
        (host.verdicts)(ActionView::Validate) == EventView::Refused(output),
    ensures
        run(creation(available, enabled, p, stamp), host, enough()) matches Some(end) && {
            &&& end.verdict == Err::<Seq<char>, AppErrorView>(
                AppErrorView::ValidationError(
                    "❌ Nginx konfiqurasiya xətası: "@ + output
                        + "\n\n✅ Əvvəlki konfiqurasiya bərpa edildi."@,
                ),
            )
            &&& end.host.nodes[path_in(available, p.name)] == host.nodes[path_in(
                available,
                p.name,
            )]
            &&& !end.host.has(backup_in(available, p.name))
            &&& end.host.nodes == host.nodes.insert(
                path_in(enabled, p.name),
                Node::Link(path_in(available, p.name)),
            ).remove(backup_in(available, p.name))
        },
{
    lemma_backup_is_another_path(available, p.name);
    reveal_with_fuel(run, 13);
    let config = path_in(available, p.name);
    let backup = backup_in(available, p.name);
    let link = path_in(enabled, p.name);
    let copy = ActionView::Copy { from: config, to: backup };
    let write = ActionView::Write { path: config, content: render_text(settled(p), stamp) };
    let unlink = ActionView::Remove { path: link };
    let make = ActionView::Link { target: config, link };
    let restore = ActionView::Copy { from: backup, to: config };
    let drop = ActionView::Remove { path: backup };
    assert((host.verdicts)(copy) is Succeeded);
    assert((host.verdicts)(write) is Succeeded);
    assert((host.verdicts)(unlink) is Succeeded);
    assert((host.verdicts)(make) is Succeeded);
    assert((host.verdicts)(restore) is Succeeded);
    assert((host.verdicts)(drop) is Succeeded);
    let end = run(creation(available, enabled, p, stamp), host, enough())->Some_0;
    assert(end.host.nodes =~= host.nodes.insert(link, Node::Link(config)).remove(backup));
}

/// The same for an update: where the validator refuses the new text and
/// the host carries out every action on files, the update ends with a
/// validation error that tells of the restoration; the configuration is then
/// what it was and no backup is left. A link that was missing has been made;
/// nothing else on the host has changed.
pub proof fn lemma_refused_update_restores(
    available: Seq<char>,
    enabled: Seq<char>,
    p: ProxyView,
    stamp: Seq<char>,
    host: Host,
    output: Seq<char>,
)
    requires
        refusal(p) is None,
        separate_paths(available, enabled, p.name),
        host.reliable(),
        host.has(available),
        host.has(path_in(available, p.name)),
        (host.verdicts)(ActionView::Validate) == EventView::Refused(output),
    ensures
        run(update(available, enabled, p.name, p, stamp), host, enough()) matches Some(end) && {
            &&& end.verdict == Err::<Seq<char>, AppErrorView>(
                AppErrorView::ValidationError(
                    "❌ Nginx konfiqurasiya xətası: "@ + output
                        + "\n\n✅ Əvvəlki konfiqurasiya bərpa edildi."@,
                ),
            )
            &&& end.host.nodes[path_in(available, p.name)] == host.nodes[path_in(
                available,
                p.name,
            )]
            &&& !end.host.has(backup_in(available, p.name))
            &&& end.host.nodes == if host.has(path_in(enabled, p.name)) {
                host.nodes.remove(backup_in(available, p.name))
            } else {
                host.nodes.insert(
                    path_in(enabled, p.name),
                    Node::Link(path_in(available, p.name)),
                ).remove(backup_in(available, p.name))
            }
        },
{
    lemma_backup_is_another_path(available, p.name);
    reveal_with_fuel(run, 13);
    let config = path_in(available, p.name);
    let backup = backup_in(available, p.name);
    let link = path_in(enabled, p.name);
    assert((host.verdicts)(ActionView::Copy { from: config, to: backup }) is Succeeded);
    assert((host.verdicts)(
        ActionView::Write { path: config, content: render_text(settled(p), stamp) },
    ) is Succeeded);
    assert((host.verdicts)(ActionView::Link { target: config, link }) is Succeeded);
    assert((host.verdicts)(ActionView::Copy { from: backup, to: config }) is Succeeded);
    assert((host.verdicts)(ActionView::Remove { path: backup }) is Succeeded);
    let end = run(update(available, enabled, p.name, p, stamp), host, enough())->Some_0;
    if host.has(link) {
        assert(end.host.nodes =~= host.nodes.remove(backup));
    } else {
        assert(end.host.nodes =~= host.nodes.insert(link, Node::Link(config)).remove(backup));
    }
}

/// Where the validator refuses the text of a configuration that did not
/// exist before, and the host carries out every action on files, the
/// creation ends with a validation error that tells of the removal; then
/// neither the configuration nor its link exists, and nothing else on the
/// host has changed.
pub proof fn lemma_refused_new_creation_leaves_nothing(
    available: Seq<char>,
    enabled: Seq<char>,
    p: ProxyView,
    stamp: Seq<char>,
    host: Host,
    output: Seq<char>,
)
    requires
        refusal(p) is None,
        separate_paths(available, enabled, p.name),
        host.reliable(),
        host.has(available),
        !host.has(path_in(available, p.name)),
        (host.verdicts)(ActionView::Validate) == EventView::Refused(output),
    ensures
        run(creation(available, enabled, p, stamp), host, enough()) matches Some(end) && {
            &&& end.verdict == Err::<Seq<char>, AppErrorView>(
                AppErrorView::ValidationError(
                    "❌ Nginx konfiqurasiya xətası: "@ + output
                        + "\n\nYanlış konfiqurasiya silindi."@,
                ),
            )
            &&& !end.host.has(path_in(available, p.name))
            &&& !end.host.has(path_in(enabled, p.name))
            &&& end.host.nodes == host.nodes.remove(path_in(enabled, p.name))
        },
{
    lemma_backup_is_another_path(available, p.name);
    reveal_with_fuel(run, 13);
    let config = path_in(available, p.name);
    let link = path_in(enabled, p.name);
    assert((host.verdicts)(
        ActionView::Write { path: config, content: render_text(settled(p), stamp) },
    ) is Succeeded);
    assert((host.verdicts)(ActionView::Remove { path: link }) is Succeeded);
    assert((host.verdicts)(ActionView::Link { target: config, link }) is Succeeded);
    assert((host.verdicts)(ActionView::Remove { path: config }) is Succeeded);
    let end = run(creation(available, enabled, p, stamp), host, enough())->Some_0;
    assert(end.host.nodes =~= host.nodes.remove(link));
}

/// Where the validator accepts the new text and the host carries out every
/// action on files, the new configuration stays in place whatever the reload
/// does: the file holds the new text, the link leads to it, and no backup is
/// left. The creation succeeds exactly if the reload does; a reload that
/// fails or cannot be run ends it with an error and undoes nothing.
pub proof fn lemma_accepted_creation_is_kept(
    available: Seq<char>,
    enabled: Seq<char>,
    p: ProxyView,
    stamp: Seq<char>,
    host: Host,
)
    requires
        refusal(p) is None,
        separate_paths(available, enabled, p.name),
        host.reliable(),
        host.has(available),
        (host.verdicts)(ActionView::Validate) is Succeeded,
    ensures
        run(creation(available, enabled, p, stamp), host, enough()) matches Some(end) && {
            &&& end.verdict is Ok <==> (host.verdicts)(ActionView::Reload) is Succeeded
            &&& end.verdict is Ok ==> end.verdict == Ok::<Seq<char>, AppErrorView>(
                "✅ "@ + p.domain + " proxy konfiqurasiyası yaradıldı və aktiv edildi"@,
            )
            &&& end.verdict matches Err(e) ==> e is NginxError
            &&& end.host.nodes[path_in(available, p.name)] == Node::File(
                render_text(settled(p), stamp),
            )
            &&& end.host.nodes[path_in(enabled, p.name)] == Node::Link(
                path_in(available, p.name),
            )
            &&& host.has(path_in(available, p.name)) ==> !end.host.has(
                backup_in(available, p.name),
            )
            &&& forall|other: Seq<char>|
                other != path_in(available, p.name) && other != path_in(enabled, p.name) && other
                    != backup_in(available, p.name) ==> (end.host.has(other) <==> host.has(other))
                    && end.host.nodes[other] == host.nodes[other]
        },
{
    lemma_backup_is_another_path(available, p.name);
    reveal_with_fuel(run, 13);
    let config = path_in(available, p.name);
    let backup = backup_in(available, p.name);
    let link = path_in(enabled, p.name);
    let text = render_text(settled(p), stamp);
    assert((host.verdicts)(ActionView::Copy { from: config, to: backup }) is Succeeded);
    assert((host.verdicts)(ActionView::Write { path: config, content: text }) is Succeeded);
    assert((host.verdicts)(ActionView::Remove { path: link }) is Succeeded);
    assert((host.verdicts)(ActionView::Link { target: config, link }) is Succeeded);
    assert((host.verdicts)(ActionView::Remove { path: backup }) is Succeeded);
}

/// The same for an update of a configuration that exists: once the
/// validator has accepted the new text it stays in place whatever the reload
/// does, enabled by the link that was there or by a new one, and no backup
/// is left. The update succeeds exactly if the reload does.
pub proof fn lemma_accepted_update_is_kept(
    available: Seq<char>,
    enabled: Seq<char>,
    p: ProxyView,
    stamp: Seq<char>,
    host: Host,
)
    requires
        refusal(p) is None,
        separate_paths(available, enabled, p.name),
        host.reliable(),
        host.has(available),
        host.has(path_in(available, p.name)),
        (host.verdicts)(ActionView::Validate) is Succeeded,
    ensures
        run(update(available, enabled, p.name, p, stamp), host, enough()) matches Some(end) && {
            &&& end.verdict is Ok <==> (host.verdicts)(ActionView::Reload) is Succeeded
            &&& end.verdict is Ok ==> end.verdict == Ok::<Seq<char>, AppErrorView>(
                "✅ "@ + p.domain + " proxy konfiqurasiyası yeniləndi"@,
            )
            &&& end.verdict matches Err(e) ==> e is NginxError
            &&& end.host.nodes[path_in(available, p.name)] == Node::File(
                render_text(settled(p), stamp),
            )
            &&& end.host.has(path_in(enabled, p.name))
            &&& !end.host.has(backup_in(available, p.name))
        },
{
    lemma_backup_is_another_path(available, p.name);
    reveal_with_fuel(run, 13);
    let config = path_in(available, p.name);
    let backup = backup_in(available, p.name);
    let link = path_in(enabled, p.name);
    let text = render_text(settled(p), stamp);
    assert((host.verdicts)(ActionView::Copy { from: config, to: backup }) is Succeeded);
    assert((host.verdicts)(ActionView::Write { path: config, content: text }) is Succeeded);
    assert((host.verdicts)(ActionView::Link { target: config, link }) is Succeeded);
    assert((host.verdicts)(ActionView::Remove { path: backup }) is Succeeded);
}

/// Without the directory of the configurations a creation or an update ends
/// with a configuration error, and an update of a configuration that does
/// not exist ends with a not-found error; the host stays as it is.
pub proof fn lemma_missing_places_change_nothing(
    available: Seq<char>,
    enabled: Seq<char>,
    p: ProxyView,
    stamp: Seq<char>,
    host: Host,
    updating: bool,
)
    requires
        refusal(p) is None,
    ensures
        !host.has(available) ==> run(
            if updating {
                update(available, enabled, p.name, p, stamp)
            } else {
                creation(available, enabled, p, stamp)
            },
            host,
            enough(),
        ) == Some(
            Ending {
                host,
                verdict: Err(
                    AppErrorView::ConfigError(
                        "Nginx qovluğu tapılmadı: "@ + available + ". Nginx quraşdırılıb?"@,
                    ),
                ),
            },
        ),
        host.has(available) && !host.has(path_in(available, p.name)) ==> run(
            update(available, enabled, p.name, p, stamp),
            host,
            enough(),
        ) == Some(
            Ending {
                host,
                verdict: Err(AppErrorView::NotFound("Konfiqurasiya tapılmadı: "@ + p.name)),
            },
        ),
{
    reveal_with_fuel(run, 3);
}

/// On a host that carries out every action on files, the removal of a proxy
/// succeeds whatever the reload does, and then neither its configuration nor
/// its link exists; nothing else on the host has changed.
pub proof fn lemma_removal_removes(
    available: Seq<char>,
    enabled: Seq<char>,
    name: Seq<char>,
    host: Host,
)
    requires
        safe_segment(name),
        host.reliable(),
    ensures
        run(removal(available, enabled, name), host, enough()) matches Some(end) && {
            &&& end.verdict is Ok
            &&& !end.host.has(path_in(available, name))
            &&& !end.host.has(path_in(enabled, name))
            &&& end.host.nodes == host.nodes.remove(path_in(enabled, name)).remove(
                path_in(available, name),
            )
        },
{
    reveal_with_fuel(run, 6);
    let config = path_in(available, name);
    let link = path_in(enabled, name);
    assert((host.verdicts)(ActionView::Remove { path: link }) is Succeeded);
    assert((host.verdicts)(ActionView::Remove { path: config }) is Succeeded);
    let end = run(removal(available, enabled, name), host, enough())->Some_0;
    assert(end.host.nodes =~= host.nodes.remove(link).remove(config));
}

/// The action that a machine at its stage waits for.
pub open spec fn pending(m: LifecycleView) -> ActionView {
    match m.stage {
        Stage::CheckingDirectory => ActionView::Probe { path: m.directory },
        Stage::CheckingExisting => m.probe_config(),
        Stage::BackingUp => m.back_up(),
        Stage::Writing => m.write(),
        Stage::CheckingLink => m.probe_link(),
        Stage::Unlinking => m.remove_link(),
        Stage::Linking => m.link(),
        Stage::Validating => ActionView::Validate,
        Stage::DiscardingBackup => m.remove_backup(),
        Stage::Reloading => ActionView::Reload,
        Stage::Restoring => m.restore(),
        Stage::DroppingBackup => m.remove_backup(),
        Stage::RemovingConfig => m.remove_config(),
        Stage::RemovingLink => m.remove_link(),
        Stage::FindingLink => m.probe_link(),
        Stage::Disabling => m.remove_link(),
        Stage::Deleting => m.remove_config(),
        Stage::Refreshing => ActionView::Reload,
    }
}

/// A bound on the number of actions that a machine at `stage` still asks for.
pub open spec fn remaining(stage: Stage) -> nat {
    match stage {
        Stage::CheckingDirectory => 12,
        Stage::CheckingExisting => 11,
        Stage::BackingUp => 10,
        Stage::Writing => 9,
        Stage::CheckingLink => 8,
        Stage::Unlinking => 7,
        Stage::Linking => 6,
        Stage::Validating => 5,
        Stage::FindingLink => 4,
        Stage::Disabling => 3,
        Stage::DiscardingBackup => 2,
        Stage::Restoring => 2,
        Stage::RemovingConfig => 2,
        Stage::Deleting => 2,
        Stage::Reloading => 1,
        Stage::DroppingBackup => 1,
        Stage::RemovingLink => 1,
        Stage::Refreshing => 1,
    }
}

/// Whatever it is told, a machine ends the request or asks for the action
/// that its next stage waits for, and comes nearer to the end; it keeps its
/// request and its paths.
pub proof fn lemma_next_asks_what_it_waits_for(m: LifecycleView, event: EventView)
    ensures
        m.next(event) matches StepView::Perform(action, after) ==> {
            &&& action == pending(after)
            &&& remaining(after.stage) < remaining(m.stage)
            &&& after.request == m.request
            &&& after.config_path == m.config_path
            &&& after.backup_path == m.backup_path
            &&& after.enabled_path == m.enabled_path
            &&& after.content == m.content
        },
{
}

/// Every request ends after at most twelve actions, on every host.
pub proof fn lemma_requests_end(m: LifecycleView, host: Host, limit: nat)
    requires
        limit >= remaining(m.stage),
    ensures
        run(StepView::Perform(pending(m), m), host, limit) is Some,
    decreases limit,
{
    let event = host.answer(pending(m));
    lemma_next_asks_what_it_waits_for(m, event);
    assert(limit >= 1);
    assert(run(StepView::Perform(pending(m), m), host, limit) == run(
        m.next(event),
        host.after(pending(m)),
        (limit - 1) as nat,
    ));
    match m.next(event) {
        StepView::Finish(_) => {},
        StepView::Perform(action, after) => {
            assert(action == pending(after));
            lemma_requests_end(after, host.after(pending(m)), (limit - 1) as nat);
        },
    }
}

/// What a configuration that existed is in the end: the file is there, and
/// it holds what it held, or it holds the new text and the validator has
/// accepted it, or the backup holds what the file held. A backup is only
/// left where copying it back, or removing it, failed.
pub open spec fn nothing_lost(
    end: Host,
    config: Seq<char>,
    backup: Seq<char>,
    old: Node,
    text: Seq<char>,
) -> bool {
    &&& end.has(config)
    &&& {
        ||| end.nodes[config] == old
        ||| end.nodes[config] == Node::File(text) && (end.verdicts)(ActionView::Validate)
            is Succeeded
        ||| end.has(backup) && end.nodes[backup] == old
    }
    &&& end.has(backup) ==> !((end.verdicts)(ActionView::Copy { from: backup, to: config })
        is Succeeded) || !((end.verdicts)(ActionView::Remove { path: backup }) is Succeeded)
}

/// What holds of host and machine at every stage of a creation or an update
/// over a configuration that held `old`.
spec fn careful(m: LifecycleView, host: Host, old: Node) -> bool {
    let config = m.config_path;
    let backup = m.backup_path;
    let new = Node::File(m.content);
    &&& m.request != Request::Remove
    &&& config != backup
    &&& m.enabled_path != config
    &&& m.enabled_path != backup
    &&& host.has(config)
    &&& match m.stage {
        Stage::CheckingDirectory | Stage::CheckingExisting | Stage::BackingUp => {
            &&& !m.had_backup
            &&& host.nodes[config] == old
            &&& !host.has(backup)
        },
        Stage::Writing => {
            &&& m.had_backup
            &&& host.nodes[config] == old
            &&& host.has(backup)
            &&& host.nodes[backup] == old
        },
        Stage::CheckingLink | Stage::Unlinking | Stage::Linking | Stage::Validating => {
            &&& m.had_backup
            &&& host.nodes[config] == new
            &&& host.has(backup)
            &&& host.nodes[backup] == old
        },
        Stage::DiscardingBackup => {
            &&& host.nodes[config] == new
            &&& (host.verdicts)(ActionView::Validate) is Succeeded
        },
        Stage::Reloading => {
            &&& host.nodes[config] == new
            &&& (host.verdicts)(ActionView::Validate) is Succeeded
            &&& host.has(backup) ==> !((host.verdicts)(ActionView::Remove { path: backup })
                is Succeeded)
        },
        Stage::Restoring => {
            &&& host.has(backup)
            &&& host.nodes[backup] == old
        },
        Stage::DroppingBackup => { host.nodes[config] == old },
        _ => false,
    }
}

proof fn lemma_careful_step(m: LifecycleView, host: Host, old: Node)
    requires
        careful(m, host, old),
    ensures
        match m.next(host.answer(pending(m))) {
            StepView::Finish(_) => nothing_lost(
                host.after(pending(m)),
                m.config_path,
                m.backup_path,
                old,
                m.content,
            ),
            StepView::Perform(_, after) => careful(after, host.after(pending(m)), old),
        },
{
}

proof fn lemma_careful_run(m: LifecycleView, host: Host, old: Node, limit: nat)
    requires
        careful(m, host, old),
        limit >= remaining(m.stage),
    ensures
        run(StepView::Perform(pending(m), m), host, limit) matches Some(end) && nothing_lost(
            end.host,
            m.config_path,
            m.backup_path,
            old,
            m.content,
        ),
    decreases limit,
{
    let event = host.answer(pending(m));
    lemma_next_asks_what_it_waits_for(m, event);
    lemma_careful_step(m, host, old);
    assert(limit >= 1);
    assert(run(StepView::Perform(pending(m), m), host, limit) == run(
        m.next(event),
        host.after(pending(m)),
        (limit - 1) as nat,
    ));
    match m.next(event) {
        StepView::Finish(_) => {},
        StepView::Perform(action, after) => {
            assert(action == pending(after));
            lemma_careful_run(after, host.after(pending(m)), old, (limit - 1) as nat);
        },
    }
}

/// Whatever the host does with each action, a creation or an update over a
/// configuration that exists ends without losing it: in the end the file
/// holds what it held, or it holds the new text and the validator has
/// accepted it, or the backup holds what the file held; and a backup is only
/// left where copying it back, or removing it, failed.
pub proof fn lemma_nothing_is_lost(
    available: Seq<char>,
    enabled: Seq<char>,
    p: ProxyView,
    stamp: Seq<char>,
    host: Host,
    updating: bool,
)
    requires
        refusal(p) is None,
        separate_paths(available, enabled, p.name),
        host.has(path_in(available, p.name)),
        !host.has(backup_in(available, p.name)),
    ensures
        run(
            if updating {
                update(available, enabled, p.name, p, stamp)
            } else {
                creation(available, enabled, p, stamp)
            },
            host,
            enough(),
        ) matches Some(end) && nothing_lost(
            end.host,
            path_in(available, p.name),
            backup_in(available, p.name),
            host.nodes[path_in(available, p.name)],
            render_text(settled(p), stamp),
        ),
{
    lemma_backup_is_another_path(available, p.name);
    let old = host.nodes[path_in(available, p.name)];
    if updating {
        let m = planned(
            Request::Update,
            Stage::CheckingDirectory,
            available,
            enabled,
            p,
            stamp,
        );
        lemma_careful_run(m, host, old, enough());
    } else {
        let m = planned(
            Request::Create,
            Stage::CheckingDirectory,
            available,
            enabled,
            p,
            stamp,
        );
        lemma_careful_run(m, host, old, enough());
    }
}

/// A definition that was accepted and settled is accepted again, and
/// settling it changes nothing more: what was written can be sent back as it
/// is.
pub proof fn lemma_settled_is_settled(p: ProxyView)
    requires
        refusal(p) is None,
    ensures
        refusal(settled(p)) is None,
        settled(settled(p)) == settled(p),
{
    match p.extra_config {
        Some(e) => {
            if trim(e).len() > 0 {
                lemma_validate_stable(e);
                lemma_format_idempotent(e);
                let f = format_text(e);
                assert(validate_text(e) == Ok::<Seq<char>, Seq<char>>(f));
                assert(settled(p) == p.with_extra(f));
                assert(validate_text(f) == Ok::<Seq<char>, Seq<char>>(f));
            }
        },
        None => {},
    }
}

} // verus!
