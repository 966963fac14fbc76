//! What the requests to the container manager decide, apart from the calls
//! to the engine: how the objects are shown, and what is answered when an
//! operation has ended.

use vstd::prelude::*;
use crate::docker::models::{
    ContainerSummary, DockerImage, DockerLogsResponse, DockerNetwork, DockerResponse,
    DockerVolume, PortMapping,
};
use crate::text::{
    copy_range, decimal, from_chars, join2, join3, option_text, push_decimal, push_str,
    same_chars, to_chars,
};

verus! {

/// `s` without every `c` at its start.
pub open spec fn strip_leading(s: Seq<char>, c: char) -> Seq<char>
    decreases s.len(),
{
    if s.len() > 0 && s.first() == c {
        strip_leading(s.drop_first(), c)
    } else {
        s
    }
}

/// The name under which a container is shown: the first of its names
/// without the slashes at its start, or `unknown` where it has no name.
pub open spec fn shown_name(names: Option<Seq<Seq<char>>>) -> Seq<char> {
    match names {
        Some(ns) => if ns.len() > 0 {
            strip_leading(ns[0], '/')
        } else {
            "unknown"@
        },
        None => "unknown"@,
    }
}

/// The views of the strings `v`.
pub open spec fn texts(v: Seq<String>) -> Seq<Seq<char>> {
    Seq::new(v.len(), |i: int| v[i]@)
}

proof fn lemma_strip_leading_at(s: Seq<char>, c: char, i: int)
    requires
        0 <= i <= s.len(),
        forall|j: int| 0 <= j < i ==> s[j] == c,
        i < s.len() ==> s[i] != c,
    ensures
        strip_leading(s, c) == s.skip(i),
    decreases i,
{
    if i == 0 {
        assert(s.skip(0) == s);
    } else {
        let rest = s.drop_first();
        assert forall|j: int| 0 <= j < i - 1 implies rest[j] == c by {
            assert(rest[j] == s[j + 1]);
        }
        lemma_strip_leading_at(rest, c, i - 1);
        assert(rest.skip(i - 1) == s.skip(i));
    }
}

/// The name under which a container with the names `names` is shown.
pub fn container_name(names: &Option<Vec<String>>) -> (r: String)
    ensures
        r@ == shown_name(
            match names {
                Some(ns) => Some(texts(ns@)),
                None => None,
            },
        ),
{
    match names {
        Some(ns) => {
            if ns.len() > 0 {
                let v = to_chars(ns[0].as_str());
                let mut i: usize = 0;
                while i < v.len() && v[i] == '/'
                    invariant
                        i <= v.len(),
                        forall|j: int| 0 <= j < i ==> v@[j] == '/',
                    decreases v.len() - i,
                {
                    i += 1;
                }
                proof {
                    lemma_strip_leading_at(v@, '/', i as int);
                }
                let rest = copy_range(&v, i, v.len());
                from_chars(&rest)
            } else {
                "unknown".to_string()
            }
        },
        None => "unknown".to_string(),
    }
}

/// The port mapping `p` as it is shown: the port of the host, a colon, the
/// port of the container.
pub open spec fn shown_port(public: u16, private: u16) -> Seq<char> {
    decimal(public as nat) + seq![':'] + decimal(private as nat)
}

/// The ports `ps` that the host leads to, as they are shown: one after the
/// other, separated by a comma and a space.
pub open spec fn shown_ports(ps: Seq<PortMapping>) -> Seq<char>
    decreases ps.len(),
{
    if ps.len() == 0 {
        Seq::empty()
    } else {
        let before = shown_ports(ps.drop_last());
        match ps.last().public_port {
            Some(public) => if before.len() > 0 {
                before + ", "@ + shown_port(public, ps.last().private_port)
            } else {
                shown_port(public, ps.last().private_port)
            },
            None => before,
        }
    }
}

/// The published ports among `ports`, as they are shown.
pub fn format_ports(ports: &Vec<PortMapping>) -> (r: String)
    ensures
        r@ == shown_ports(ports@),
{
    let mut out: Vec<char> = Vec::new();
    let mut i: usize = 0;
    while i < ports.len()
        invariant
            i <= ports.len(),
            out@ == shown_ports(ports@.take(i as int)),
        decreases ports.len() - i,
    {
        proof {
            assert(ports@.take(i + 1).drop_last() == ports@.take(i as int));
            assert(ports@.take(i + 1).last() == ports@[i as int]);
        }
        let p = ports[i];
        match p.public_port {
            Some(public) => {
                let ghost before = out@;
                if out.len() > 0 {
                    push_str(&mut out, ", ");
                }
                push_decimal(&mut out, public as usize);
                out.push(':');
                push_decimal(&mut out, p.private_port as usize);
                assert(out@ =~= if before.len() > 0 {
                    before + ", "@ + shown_port(public, p.private_port)
                } else {
                    shown_port(public, p.private_port)
                });
            },
            None => {},
        }
        i += 1;
    }
    proof {
        assert(ports@.take(i as int) == ports@);
    }
    from_chars(&out)
}

/// Whether the use of memory is asked of a container in the state `state`:
/// only of one that runs.
pub fn needs_stats(state: &str) -> (r: bool)
    ensures
        r == (state@ == "running"@),
{
    let s = to_chars(state);
    let running = to_chars("running");
    same_chars(&s, &running)
}

/// A container as it is listed, from what the engine tells of it. What the
/// engine leaves out is shown as empty text, and as zero for the time of
/// creation.
pub fn container_summary(
    id: Option<String>,
    names: &Option<Vec<String>>,
    image: Option<String>,
    state: Option<String>,
    status: Option<String>,
    ports: &Option<Vec<PortMapping>>,
    created: Option<i64>,
) -> (c: ContainerSummary)
    ensures
        c.id@ == text_or_empty(id),
        c.name@ == shown_name(
            match names {
                Some(ns) => Some(texts(ns@)),
                None => None,
            },
        ),
        c.image@ == text_or_empty(image),
        c.state@ == text_or_empty(state),
        c.status@ == text_or_empty(status),
        c.ports@ == match ports {
            Some(ps) => shown_ports(ps@),
            None => Seq::empty(),
        },
        c.created == match created {
            Some(t) => t,
            None => 0,
        },
{
    ContainerSummary {
        id: or_empty(id),
        name: container_name(names),
        image: or_empty(image),
        state: or_empty(state),
        status: or_empty(status),
        ports: match ports {
            Some(ps) => format_ports(ps),
            None => String::new(),
        },
        created: match created {
            Some(t) => t,
            None => 0,
        },
    }
}

/// The text `s`, or the empty text where there is none.
pub open spec fn text_or_empty(s: Option<String>) -> Seq<char> {
    match s {
        Some(t) => t@,
        None => Seq::empty(),
    }
}

/// The text `s`, or the empty text where there is none.
pub fn or_empty(s: Option<String>) -> (r: String)
    ensures
        r@ == text_or_empty(s),
{
    match s {
        Some(t) => t,
        None => String::new(),
    }
}

/// The position of the first `c` in `s` from position `from` on, or the
/// length of `s` where there is none.
pub open spec fn next_at(s: Seq<char>, c: char, from: int) -> int
    decreases s.len() - from,
{
    if from >= s.len() {
        s.len() as int
    } else if s[from] == c {
        from
    } else {
        next_at(s, c, from + 1)
    }
}

/// The repository of the reference `r`: what stands before its first colon.
pub open spec fn repository_of(r: Seq<char>) -> Seq<char> {
    r.take(next_at(r, ':', 0))
}

/// The tag of the reference `r`: what stands between its first and its
/// second colon, or `<none>` where it has no colon.
pub open spec fn tag_of(r: Seq<char>) -> Seq<char> {
    let first = next_at(r, ':', 0);
    if first >= r.len() {
        "<none>"@
    } else {
        r.subrange(first + 1, next_at(r, ':', first + 1))
    }
}

/// The reference under which an image with the references `tags` is shown:
/// the first of them, or one without repository and tag.
pub open spec fn shown_reference(tags: Seq<Seq<char>>) -> Seq<char> {
    if tags.len() > 0 {
        tags[0]
    } else {
        "<none>:<none>"@
    }
}

proof fn lemma_next_at_bounds(s: Seq<char>, c: char, from: int)
    requires
        0 <= from <= s.len(),
    ensures
        from <= next_at(s, c, from) <= s.len(),
    decreases s.len() - from,
{
    if from < s.len() && s[from] != c {
        lemma_next_at_bounds(s, c, from + 1);
    }
}

/// The position of the first `c` in `v` from `from` on, or the length of `v`.
fn find_from(v: &Vec<char>, c: char, from: usize) -> (r: usize)
    requires
        from <= v.len(),
    ensures
        r == next_at(v@, c, from as int),
        from <= r <= v.len(),
{
    let mut i: usize = from;
    while i < v.len() && v[i] != c
        invariant
            from <= i <= v.len(),
            next_at(v@, c, from as int) == next_at(v@, c, i as int),
        decreases v.len() - i,
    {
        i += 1;
    }
    i
}

/// An image as it is listed: its repository and tag are those of the first
/// of its references.
pub fn image_summary(id: String, repo_tags: &Vec<String>, size: i64, created: i64) -> (img:
    DockerImage)
    ensures
        img.id@ == id@,
        img.repository@ == repository_of(shown_reference(texts(repo_tags@))),
        img.tag@ == tag_of(shown_reference(texts(repo_tags@))),
        img.size == size,
        img.created == created,
{
    let reference = if repo_tags.len() > 0 {
        to_chars(repo_tags[0].as_str())
    } else {
        to_chars("<none>:<none>")
    };
    let first = find_from(&reference, ':', 0);
    let repository = copy_range(&reference, 0, first);
    let tag = if first >= reference.len() {
        "<none>".to_string()
    } else {
        let second = find_from(&reference, ':', first + 1);
        let t = copy_range(&reference, first + 1, second);
        from_chars(&t)
    };
    DockerImage { id, repository: from_chars(&repository), tag, size, created }
}

/// A volume as it is listed; the time of its creation is not shown.
pub fn volume_summary(name: String, driver: String, mountpoint: String) -> (v: DockerVolume)
    ensures
        v.name@ == name@,
        v.driver@ == driver@,
        v.mountpoint@ == mountpoint@,
        v.created is None,
{
    DockerVolume { name, driver, mountpoint, created: None }
}

/// A network as it is listed, with the first of its subnets. What the
/// engine leaves out is shown as empty text.
pub fn network_summary(
    id: Option<String>,
    name: Option<String>,
    driver: Option<String>,
    scope: Option<String>,
    subnets: Vec<Option<String>>,
) -> (n: DockerNetwork)
    ensures
        n.id@ == text_or_empty(id),
        n.name@ == text_or_empty(name),
        n.driver@ == text_or_empty(driver),
        n.scope@ == text_or_empty(scope),
        option_text(n.subnet) == if subnets@.len() > 0 {
            option_text(subnets@[0])
        } else {
            None
        },
{
    let subnet = if subnets.len() > 0 {
        subnets[0].clone()
    } else {
        None
    };
    DockerNetwork {
        id: or_empty(id),
        name: or_empty(name),
        driver: or_empty(driver),
        scope: or_empty(scope),
        subnet,
    }
}

/// An operation on an object of the engine.
#[derive(Debug, Clone, Copy, PartialEq, Eq, Structural)]
pub enum Operation {
    StartContainer,
    StopContainer,
    RestartContainer,
    RemoveContainer,
    RemoveImage,
    RemoveVolume,
    RemoveNetwork,
}

impl Operation {
    /// What is said when the operation was carried out.
    pub open spec fn success_text(self) -> Seq<char> {
        match self {
            Operation::StartContainer => "✅ Container started successfully"@,
            Operation::StopContainer => "✅ Container stopped successfully"@,
            Operation::RestartContainer => "✅ Container restarted successfully"@,
            Operation::RemoveContainer => "✅ Container removed successfully"@,
            Operation::RemoveImage => "✅ Image removed successfully"@,
            Operation::RemoveVolume => "✅ Volume removed successfully"@,
            Operation::RemoveNetwork => "✅ Network removed successfully"@,
        }
    }

    /// What is said before the reason when the operation failed.
    pub open spec fn failure_text(self) -> Seq<char> {
        match self {
            Operation::StartContainer => "Failed to start container: "@,
            Operation::StopContainer => "Failed to stop container: "@,
            Operation::RestartContainer => "Failed to restart container: "@,
            Operation::RemoveContainer => "Failed to remove container: "@,
            Operation::RemoveImage => "Failed to remove image: "@,
            Operation::RemoveVolume => "Failed to remove volume: "@,
            Operation::RemoveNetwork => "Failed to remove network: "@,
        }
    }
}

/// The status and the body of the answer to the operation `op`, which ended
/// with `result`: 200 and the message of success, or 500 and the reason of
/// the failure.
pub fn operation_response(op: Operation, result: Result<(), String>) -> (r: (u16, DockerResponse))
    ensures
        match result {
            Ok(_) => r.0 == 200 && r.1.success && r.1.message@ == op.success_text(),
            Err(e) => r.0 == 500 && !r.1.success && r.1.message@ == op.failure_text() + e@,
        },
{
    match result {
        Ok(_) => {
            let message = match op {
                Operation::StartContainer => "✅ Container started successfully".to_string(),
                Operation::StopContainer => "✅ Container stopped successfully".to_string(),
                Operation::RestartContainer => "✅ Container restarted successfully".to_string(),
                Operation::RemoveContainer => "✅ Container removed successfully".to_string(),
                Operation::RemoveImage => "✅ Image removed successfully".to_string(),
                Operation::RemoveVolume => "✅ Volume removed successfully".to_string(),
                Operation::RemoveNetwork => "✅ Network removed successfully".to_string(),
            };
            (200, DockerResponse { success: true, message })
        },
        Err(e) => {
            let message = match op {
                Operation::StartContainer => join2("Failed to start container: ", e.as_str()),
                Operation::StopContainer => join2("Failed to stop container: ", e.as_str()),
                Operation::RestartContainer => join2("Failed to restart container: ", e.as_str()),
                Operation::RemoveContainer => join2("Failed to remove container: ", e.as_str()),
                Operation::RemoveImage => join2("Failed to remove image: ", e.as_str()),
                Operation::RemoveVolume => join2("Failed to remove volume: ", e.as_str()),
                Operation::RemoveNetwork => join2("Failed to remove network: ", e.as_str()),
            };
            (500, DockerResponse { success: false, message })
        },
    }
}

/// The answer where the engine cannot be reached, for the reason `why`.
pub fn connection_failure(why: &str) -> (r: (u16, DockerResponse))
    ensures
        r.0 == 500,
        !r.1.success,
        r.1.message@ == "Docker connection failed: "@ + why@ + ". Is Docker running?"@,
{
    (
        500,
        DockerResponse {
            success: false,
            message: join3("Docker connection failed: ", why, ". Is Docker running?"),
        },
    )
}

/// The pieces of a log up to the first that could not be read, one behind
/// the other.
pub open spec fn gathered(chunks: Seq<Result<String, String>>) -> Seq<char>
    decreases chunks.len(),
{
    if chunks.len() == 0 {
        Seq::empty()
    } else {
        match chunks.first() {
            Ok(s) => s@ + gathered(chunks.drop_first()),
            Err(_) => Seq::empty(),
        }
    }
}

/// The log of a container, from the pieces in which the engine delivered
/// it: reading stops at the first piece that could not be read.
pub fn collect_logs(chunks: &Vec<Result<String, String>>) -> (r: DockerLogsResponse)
    ensures
        r.logs@ == gathered(chunks@),
{
    let mut out: Vec<char> = Vec::new();
    let mut i: usize = 0;
    proof {
        assert(chunks@.skip(0) == chunks@);
        assert(out@ + gathered(chunks@) =~= gathered(chunks@));
    }
    while i < chunks.len()
        invariant
            i <= chunks.len(),
            gathered(chunks@) == out@ + gathered(chunks@.skip(i as int)),
        decreases chunks.len() - i,
    {
        proof {
            assert(chunks@.skip(i as int).first() == chunks@[i as int]);
            assert(chunks@.skip(i as int).drop_first() == chunks@.skip(i + 1));
        }
        match &chunks[i] {
            Ok(s) => {
                let ghost before = out@;
                push_str(&mut out, s.as_str());
                assert(before + (s@ + gathered(chunks@.skip(i + 1))) =~= out@ + gathered(
                    chunks@.skip(i + 1),
                ));
            },
            Err(_) => {
                assert(out@ + Seq::<char>::empty() =~= out@);
                return DockerLogsResponse { logs: from_chars(&out) };
            },
        }
        i += 1;
    }
    proof {
        assert(chunks@.skip(i as int).len() == 0);
        assert(out@ + Seq::<char>::empty() =~= out@);
    }
    DockerLogsResponse { logs: from_chars(&out) }
}

/// The log that is shown where the engine cannot be reached.
pub fn logs_unavailable(why: &str) -> (r: DockerLogsResponse)
    ensures
        r.logs@ == "Error: "@ + why@,
{
    DockerLogsResponse { logs: join2("Error: ", why) }
}

} // verus!
