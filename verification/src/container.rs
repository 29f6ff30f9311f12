//! Container runtime detection and the podman/docker command lines the
//! agent builds, with the parsing of what those tools print.

use vstd::prelude::*;
use crate::text::{
    trim, strip_prefix, take_until_any, split_once, lines, join, strings, decimal,
    str_chars, trim_chars, strip_prefix_chars, take_until_any_chars, split_once_chars,
    lines_chars, string_from_chars, u64_to_decimal,
};
use crate::schedule::{parse_u32, parse_u32_chars};

verus! {

/// Container runtime capabilities detected on this agent.
pub struct ContainerCapabilities {
    pub podman_version: Option<String>,
    pub docker_version: Option<String>,
    pub compose_version: Option<String>,
    /// "docker compose" or "podman-compose"
    pub compose_tool: Option<String>,
    /// "podman", "docker", "both", or "none"
    pub preferred: String,
}

/// The characters after the last occurrence of `c` (all of `s` when `c`
/// does not occur): the first item of `s.rsplit(c)`.
pub open spec fn after_last(s: Seq<char>, c: char) -> Seq<char>
    decreases s.len(),
{
    if s.len() == 0 {
        s
    } else if s.last() == c {
        seq![]
    } else {
        after_last(s.drop_last(), c).push(s.last())
    }
}

/// The version in `podman --version` style output ("podman version 4.9.3"):
/// its last space-separated word, when not empty.
pub open spec fn cli_version(output: Seq<char>) -> Option<Seq<char>> {
    let v = trim(after_last(trim(output), ' '));
    if v.len() == 0 {
        None
    } else {
        Some(v)
    }
}

/// The version in `docker --version` output ("Docker version 24.0.7, build
/// afdd53b" gives "24.0.7"), falling back to the last word.
pub open spec fn docker_version(output: Seq<char>) -> Option<Seq<char>> {
    let t = trim(output);
    match strip_prefix(t, "Docker version "@) {
        Some(rest) => Some(trim(take_until_any(rest, seq![',']))),
        None => cli_version(t),
    }
}

/// The runtime preference: "both", "podman", "docker" or "none".
pub open spec fn preferred_runtime(podman: bool, docker: bool) -> Seq<char> {
    if podman && docker {
        "both"@
    } else if podman {
        "podman"@
    } else if docker {
        "docker"@
    } else {
        "none"@
    }
}

/// The compose tool found: `docker compose version --short` when it printed
/// something, else `podman-compose --version`.
pub open spec fn compose_of(docker_out: Option<Seq<char>>, podman_out: Option<Seq<char>>) -> Option<(Seq<char>, Seq<char>)> {
    match docker_out {
        Some(o) if trim(o).len() > 0 => Some((trim(o), "docker compose"@)),
        _ => match podman_out {
            Some(o) => match cli_version(o) {
                Some(v) => Some((v, "podman-compose"@)),
                None => None,
            },
            None => None,
        },
    }
}

fn after_last_chars(s: &Vec<char>, c: char) -> (r: Vec<char>)
    ensures
        r@ == after_last(s@, c),
{
    let mut start: usize = s.len();
    assert(s@.take(s.len() as int) == s@);
    assert(s@.skip(s.len() as int) == Seq::<char>::empty());
    assert(s@ + Seq::<char>::empty() == s@);
    while start > 0 && s[start - 1] != c
        invariant
            start <= s.len(),
            after_last(s@, c) == after_last(s@.take(start as int), c) + s@.skip(start as int),
        decreases start,
    {
        assert(s@.take(start as int).drop_last() == s@.take(start - 1));
        assert(s@.skip(start - 1) == seq![s@[start - 1]] + s@.skip(start as int));
        start = start - 1;
    }
    if start > 0 {
        assert(s@.take(start as int).last() == c);
    } else {
        assert(s@.take(0) == Seq::<char>::empty());
    }
    crate::text::slice_chars(s, start, s.len())
}

/// Parses the version from `podman --version` output.
pub fn parse_cli_version(output: &str) -> (r: Option<String>)
    ensures
        match r {
            Some(v) => cli_version(output@) == Some(v@),
            None => cli_version(output@) is None,
        },
{
    let t = trim_chars(&str_chars(output));
    let v = trim_chars(&after_last_chars(&t, ' '));
    if v.len() == 0 {
        None
    } else {
        Some(string_from_chars(&v))
    }
}

/// Parses the version from `docker --version` output.
pub fn parse_docker_version(output: &str) -> (r: Option<String>)
    ensures
        match r {
            Some(v) => docker_version(output@) == Some(v@),
            None => docker_version(output@) is None,
        },
{
    let t = trim_chars(&str_chars(output));
    match strip_prefix_chars(&t, &str_chars("Docker version ")) {
        Some(rest) => {
            let mut stops: Vec<char> = Vec::new();
            stops.push(',');
            assert(stops@ == seq![',']);
            let v = trim_chars(&take_until_any_chars(&rest, &stops));
            Some(string_from_chars(&v))
        },
        None => {
            let s = string_from_chars(&t);
            parse_cli_version(s.as_str())
        },
    }
}

/// The compose tool and its version, from the output of `docker compose
/// version --short` and of `podman-compose --version` (`None` where the
/// command failed or was not run).
pub fn select_compose(docker_out: Option<&str>, podman_out: Option<&str>) -> (r: Option<(String, String)>)
    ensures
        match r {
            Some((v, t)) => compose_of(
                match docker_out { Some(o) => Some(o@), None => None },
                match podman_out { Some(o) => Some(o@), None => None },
            ) == Some((v@, t@)),
            None => compose_of(
                match docker_out { Some(o) => Some(o@), None => None },
                match podman_out { Some(o) => Some(o@), None => None },
            ) is None,
        },
{
    if let Some(o) = docker_out {
        let t = trim_chars(&str_chars(o));
        if t.len() > 0 {
            return Some((string_from_chars(&t), "docker compose".to_owned()));
        }
    }
    match podman_out {
        Some(o) => match parse_cli_version(o) {
            Some(v) => Some((v, "podman-compose".to_owned())),
            None => None,
        },
        None => None,
    }
}

/// The capabilities of this machine from the probed versions of podman and
/// docker and the compose tool found.
pub fn detect_capabilities(
    podman_version: Option<String>,
    docker_version: Option<String>,
    compose: Option<(String, String)>,
) -> (caps: ContainerCapabilities)
    ensures
        caps.podman_version == podman_version,
        caps.docker_version == docker_version,
        caps.compose_version == (match compose { Some((v, _)) => Some(v), None => None }),
        caps.compose_tool == (match compose { Some((_, t)) => Some(t), None => None }),
        caps.preferred@ == preferred_runtime(podman_version is Some, docker_version is Some),
{
    let preferred = if podman_version.is_some() && docker_version.is_some() {
        "both".to_owned()
    } else if podman_version.is_some() {
        "podman".to_owned()
    } else if docker_version.is_some() {
        "docker".to_owned()
    } else {
        "none".to_owned()
    };
    let (compose_version, compose_tool) = match compose {
        Some((v, t)) => (Some(v), Some(t)),
        None => (None, None),
    };
    ContainerCapabilities { podman_version, docker_version, compose_version, compose_tool, preferred }
}

impl ContainerCapabilities {
    /// The container runtime command to use; podman when both are there.
    pub fn runtime_cmd(&self) -> (r: Option<&'static str>)
        ensures
            self.podman_version is Some ==> r == Some("podman"),
            self.podman_version is None && self.docker_version is Some ==> r == Some("docker"),
            self.podman_version is None && self.docker_version is None ==> r is None,
    {
        if self.podman_version.is_some() {
            Some("podman")
        } else if self.docker_version.is_some() {
            Some("docker")
        } else {
            None
        }
    }

    /// Whether some container runtime is installed.
    pub fn is_ready(&self) -> (b: bool)
        ensures
            b == (self.podman_version is Some || self.docker_version is Some),
    {
        self.podman_version.is_some() || self.docker_version.is_some()
    }
}

/// `berth/{project_id}:{version}`, the tag of a project's image.
pub fn image_tag(project_id: &str, version: u32) -> (s: String)
    ensures
        s@ == "berth/"@ + project_id@ + ":"@ + decimal(version as nat),
{
    let mut s = "berth/".to_owned();
    s.append(project_id);
    s.append(":");
    let v = u64_to_decimal(version as u64);
    s.append(v.as_str());
    s
}

/// `berth/{project_id}:{tag}`.
pub fn image_ref(project_id: &str, tag: &str) -> (s: String)
    ensures
        s@ == "berth/"@ + project_id@ + ":"@ + tag@,
{
    let mut s = "berth/".to_owned();
    s.append(project_id);
    s.append(":");
    s.append(tag);
    s
}

/// The arguments of `{runtime} build`: tag the image and build it from the
/// given Containerfile and context directory.
pub fn build_args(image_tag: &str, containerfile_path: &str, context_dir: &str) -> (args: Vec<String>)
    ensures
        strings(args@) == seq!["build"@, "-t"@, image_tag@, "-f"@, containerfile_path@, context_dir@],
{
    let mut args: Vec<String> = Vec::new();
    args.push("build".to_owned());
    args.push("-t".to_owned());
    args.push(image_tag.to_owned());
    args.push("-f".to_owned());
    args.push(containerfile_path.to_owned());
    args.push(context_dir.to_owned());
    assert(strings(args@) =~= seq!["build"@, "-t"@, image_tag@, "-f"@, containerfile_path@, context_dir@]);
    args
}

/// `-e KEY=VALUE` for each variable, in order.
pub open spec fn env_args(vars: Seq<(String, String)>) -> Seq<Seq<char>>
    decreases vars.len(),
{
    if vars.len() == 0 {
        seq![]
    } else {
        env_args(vars.drop_last()) + seq!["-e"@, vars.last().0@ + "="@ + vars.last().1@]
    }
}

/// The arguments of `{runtime} run`: a removed-on-exit container with the
/// given name and environment, from the given image.
pub fn run_args(container_name: &str, env_vars: &Vec<(String, String)>, image_tag: &str) -> (args: Vec<String>)
    ensures
        strings(args@) == seq!["run"@, "--rm"@, "--name"@, container_name@] + env_args(env_vars@) + seq![image_tag@],
{
    let mut args: Vec<String> = Vec::new();
    args.push("run".to_owned());
    args.push("--rm".to_owned());
    args.push("--name".to_owned());
    args.push(container_name.to_owned());
    let ghost head = seq!["run"@, "--rm"@, "--name"@, container_name@];
    assert(strings(args@) =~= head);
    let mut i: usize = 0;
    while i < env_vars.len()
        invariant
            i <= env_vars.len(),
            strings(args@) == head + env_args(env_vars@.take(i as int)),
        decreases env_vars.len() - i,
    {
        assert(env_vars@.take(i + 1).drop_last() == env_vars@.take(i as int));
        let (k, v) = &env_vars[i];
        let mut kv = k.clone();
        kv.append("=");
        kv.append(v.as_str());
        args.push("-e".to_owned());
        args.push(kv);
        assert(strings(args@) =~= head + env_args(env_vars@.take(i as int)) + seq!["-e"@, env_vars@[i as int].0@ + "="@ + env_vars@[i as int].1@]);
        i = i + 1;
    }
    assert(env_vars@.take(env_vars.len() as int) == env_vars@);
    args.push(image_tag.to_owned());
    assert(strings(args@) =~= head + env_args(env_vars@) + seq![image_tag@]);
    args
}

/// An image of a project, as `{runtime} images` lists it.
pub struct ImageInfo {
    pub tag: String,
    pub size: String,
    pub created: String,
}

/// The image a line of `{{.Tag}} {{.Size}} {{.CreatedAt}}` output
/// describes: `splitn(3, ' ')`, with at least two parts.
pub open spec fn image_of_line(l: Seq<char>) -> Option<(Seq<char>, Seq<char>, Seq<char>)> {
    match split_once(l, ' ') {
        None => None,
        Some((tag, rest)) => match split_once(rest, ' ') {
            Some((size, created)) => Some((tag, size, created)),
            None => Some((tag, rest, seq![])),
        },
    }
}

/// The images described by the non-empty lines of a listing, in order.
pub open spec fn images_of(ls: Seq<Seq<char>>) -> Seq<(Seq<char>, Seq<char>, Seq<char>)>
    decreases ls.len(),
{
    if ls.len() == 0 {
        seq![]
    } else {
        let prev = images_of(ls.drop_last());
        if ls.last().len() > 0 {
            match image_of_line(ls.last()) {
                Some(img) => prev.push(img),
                None => prev,
            }
        } else {
            prev
        }
    }
}

/// The views of a list of images.
pub open spec fn image_views(v: Seq<ImageInfo>) -> Seq<(Seq<char>, Seq<char>, Seq<char>)> {
    v.map_values(|i: ImageInfo| (i.tag@, i.size@, i.created@))
}

/// Parses the output of `{runtime} images --format "{{.Tag}} {{.Size}}
/// {{.CreatedAt}}"`.
pub fn parse_image_list(stdout: &str) -> (images: Vec<ImageInfo>)
    ensures
        image_views(images@) == images_of(lines(stdout@)),
{
    let ls = lines_chars(&str_chars(stdout));
    let ghost lv = crate::text::views(ls@);
    let mut images: Vec<ImageInfo> = Vec::new();
    let mut i: usize = 0;
    while i < ls.len()
        invariant
            i <= ls.len(),
            lv == crate::text::views(ls@),
            lv == lines(stdout@),
            image_views(images@) == images_of(lv.take(i as int)),
        decreases ls.len() - i,
    {
        assert(lv.take(i + 1).drop_last() == lv.take(i as int));
        assert(lv.take(i + 1).last() == ls@[i as int]@);
        let l = &ls[i];
        if l.len() > 0 {
            if let Some((tag, rest)) = split_once_chars(l, ' ') {
                let (size, created) = match split_once_chars(&rest, ' ') {
                    Some((s, c)) => (s, c),
                    None => (rest, Vec::new()),
                };
                let img = ImageInfo {
                    tag: string_from_chars(&tag),
                    size: string_from_chars(&size),
                    created: string_from_chars(&created),
                };
                images.push(img);
                assert(image_views(images@) =~= images_of(lv.take(i as int)).push((tag@, size@, created@)));
            }
        }
        i = i + 1;
    }
    assert(lv.take(ls.len() as int) == lv);
    images
}

/// `sorted` with the image `x` placed after every image of a version at
/// least as high: one step of a stable sort by decreasing version.
pub open spec fn insert_by_version(sorted: Seq<(int, Seq<char>)>, x: (int, Seq<char>)) -> Seq<(int, Seq<char>)>
    decreases sorted.len(),
{
    if sorted.len() == 0 {
        seq![x]
    } else if sorted[0].0 >= x.0 {
        seq![sorted[0]] + insert_by_version(sorted.drop_first(), x)
    } else {
        seq![x] + sorted
    }
}

/// A stable sort by decreasing version.
pub open spec fn sort_by_version_desc(s: Seq<(int, Seq<char>)>) -> Seq<(int, Seq<char>)>
    decreases s.len(),
{
    if s.len() == 0 {
        seq![]
    } else {
        insert_by_version(sort_by_version_desc(s.drop_last()), s.last())
    }
}

/// The images whose tag is a version number, with that number, in order.
pub open spec fn versioned(tags: Seq<Seq<char>>) -> Seq<(int, Seq<char>)>
    decreases tags.len(),
{
    if tags.len() == 0 {
        seq![]
    } else {
        let prev = versioned(tags.drop_last());
        match parse_u32(tags.last()) {
            Some(v) => prev.push((v, tags.last())),
            None => prev,
        }
    }
}

/// The tags of a list of images.
pub open spec fn image_tags(v: Seq<ImageInfo>) -> Seq<Seq<char>> {
    v.map_values(|i: ImageInfo| i.tag@)
}

/// The tags to remove so that the `keep` most recent versions stay: none
/// when there are at most `keep` images, else the versioned tags after the
/// first `keep` of a stable sort by decreasing version.
pub open spec fn prune_tags(tags: Seq<Seq<char>>, keep: nat) -> Seq<Seq<char>> {
    if tags.len() <= keep {
        seq![]
    } else {
        let sorted = sort_by_version_desc(versioned(tags));
        if sorted.len() <= keep {
            seq![]
        } else {
            sorted.skip(keep as int).map_values(|p: (int, Seq<char>)| p.1)
        }
    }
}

proof fn lemma_insert_by_version_at(xs: Seq<(int, Seq<char>)>, x: (int, Seq<char>), i: int)
    requires
        0 <= i <= xs.len(),
        forall|j: int| 0 <= j < i ==> (#[trigger] xs[j]).0 >= x.0,
        i == xs.len() || xs[i].0 < x.0,
    ensures
        insert_by_version(xs, x) == xs.take(i) + seq![x] + xs.skip(i),
    decreases i,
{
    if i == 0 {
        assert(xs.skip(0) == xs);
        if xs.len() > 0 {
            assert(xs.take(0) + seq![x] + xs == seq![x] + xs);
        }
    } else {
        let t = xs.drop_first();
        assert forall|j: int| 0 <= j < i - 1 implies (#[trigger] t[j]).0 >= x.0 by {
            assert(t[j] == xs[j + 1]);
        }
        lemma_insert_by_version_at(t, x, i - 1);
        assert(xs.take(i) == seq![xs[0]] + t.take(i - 1));
        assert(xs.skip(i) == t.skip(i - 1));
    }
}

fn insert_by_version_exec(sorted: &mut Vec<(u32, String)>, v: u32, tag: String)
    ensures
        final(sorted)@.map_values(|p: (u32, String)| (p.0 as int, p.1@)) == insert_by_version(
            old(sorted)@.map_values(|p: (u32, String)| (p.0 as int, p.1@)),
            (v as int, tag@),
        ),
{
    let ghost xs = old(sorted)@.map_values(|p: (u32, String)| (p.0 as int, p.1@));
    let mut i: usize = 0;
    while i < sorted.len() && sorted[i].0 >= v
        invariant
            i <= sorted.len(),
            sorted@.map_values(|p: (u32, String)| (p.0 as int, p.1@)) == xs,
            forall|j: int| 0 <= j < i ==> (#[trigger] xs[j]).0 >= v,
        decreases sorted.len() - i,
    {
        assert(xs[i as int].0 == sorted@[i as int].0);
        i = i + 1;
    }
    proof {
        if i < sorted.len() {
            assert(xs[i as int].0 == sorted@[i as int].0);
        }
        lemma_insert_by_version_at(xs, (v as int, tag@), i as int);
    }
    let ghost tv = tag@;
    sorted.insert(i, (v, tag));
    assert(sorted@.map_values(|p: (u32, String)| (p.0 as int, p.1@)) =~= xs.take(i as int) + seq![(v as int, tv)] + xs.skip(i as int));
}

/// The tags of a project's images to remove, keeping the `keep` highest
/// versions.
pub fn prune_candidates(images: &Vec<ImageInfo>, keep: usize) -> (tags: Vec<String>)
    ensures
        strings(tags@) == prune_tags(image_tags(images@), keep as nat),
{
    let ghost all = image_tags(images@);
    if images.len() <= keep {
        return Vec::new();
    }
    let mut sorted: Vec<(u32, String)> = Vec::new();
    let mut i: usize = 0;
    while i < images.len()
        invariant
            i <= images.len(),
            all == image_tags(images@),
            sorted@.map_values(|p: (u32, String)| (p.0 as int, p.1@)) == sort_by_version_desc(versioned(all.take(i as int))),
        decreases images.len() - i,
    {
        assert(all.take(i + 1).drop_last() == all.take(i as int));
        assert(all.take(i + 1).last() == images@[i as int].tag@);
        let tag = &images[i].tag;
        let ghost prev = versioned(all.take(i as int));
        match parse_u32_chars(&str_chars(tag.as_str())) {
            Some(v) => {
                assert(versioned(all.take(i + 1)) == prev.push((v as int, tag@)));
                assert(prev.push((v as int, tag@)).drop_last() == prev);
                insert_by_version_exec(&mut sorted, v, tag.clone());
            },
            None => {
                assert(versioned(all.take(i + 1)) == prev);
            },
        }
        i = i + 1;
    }
    assert(all.take(images.len() as int) == all);
    let ghost sv = sorted@.map_values(|p: (u32, String)| (p.0 as int, p.1@));
    let mut out: Vec<String> = Vec::new();
    let mut k: usize = keep;
    while k < sorted.len()
        invariant
            keep <= k <= sorted.len() || sorted.len() <= keep,
            sv == sorted@.map_values(|p: (u32, String)| (p.0 as int, p.1@)),
            k >= keep,
            sorted.len() > keep ==> strings(out@) == sv.subrange(keep as int, k as int).map_values(|p: (int, Seq<char>)| p.1),
            sorted.len() <= keep ==> out@.len() == 0,
        decreases sorted.len() - k,
    {
        out.push(sorted[k].1.clone());
        assert(sv.subrange(keep as int, k + 1).map_values(|p: (int, Seq<char>)| p.1) =~= sv.subrange(keep as int, k as int).map_values(|p: (int, Seq<char>)| p.1).push(sv[k as int].1));
        k = k + 1;
    }
    proof {
        if sorted.len() > keep {
            assert(sv.subrange(keep as int, sorted.len() as int) =~= sv.skip(keep as int));
        } else {
            assert(strings(out@) =~= Seq::<Seq<char>>::empty());
        }
    }
    out
}

/// Versions never increase along a sequence.
pub open spec fn sorted_desc(s: Seq<(int, Seq<char>)>) -> bool {
    forall|i: int, j: int| 0 <= i < j < s.len() ==> s[i].0 >= s[j].0
}

proof fn lemma_insert_bounded(t: Seq<(int, Seq<char>)>, x: (int, Seq<char>), b: int)
    requires
        forall|j: int| 0 <= j < t.len() ==> (#[trigger] t[j]).0 <= b,
        x.0 <= b,
    ensures
        insert_by_version(t, x).len() == t.len() + 1,
        forall|k: int| 0 <= k < insert_by_version(t, x).len() ==> (#[trigger] insert_by_version(t, x)[k]).0 <= b,
    decreases t.len(),
{
    if t.len() > 0 && t[0].0 >= x.0 {
        let r = t.drop_first();
        assert forall|j: int| 0 <= j < r.len() implies (#[trigger] r[j]).0 <= b by {
            assert(r[j] == t[j + 1]);
        }
        lemma_insert_bounded(r, x, b);
        let ins = insert_by_version(t, x);
        assert forall|k: int| 0 <= k < ins.len() implies (#[trigger] ins[k]).0 <= b by {
            if k > 0 {
                assert(ins[k] == insert_by_version(r, x)[k - 1]);
            }
        }
    }
}

proof fn lemma_insert_sorted(t: Seq<(int, Seq<char>)>, x: (int, Seq<char>))
    requires
        sorted_desc(t),
    ensures
        sorted_desc(insert_by_version(t, x)),
        insert_by_version(t, x).len() == t.len() + 1,
    decreases t.len(),
{
    if t.len() == 0 {
    } else if t[0].0 >= x.0 {
        let r = t.drop_first();
        assert(sorted_desc(r)) by {
            assert forall|i: int, j: int| 0 <= i < j < r.len() implies r[i].0 >= r[j].0 by {
                assert(r[i] == t[i + 1] && r[j] == t[j + 1]);
            }
        }
        lemma_insert_sorted(r, x);
        assert forall|j: int| 0 <= j < r.len() implies (#[trigger] r[j]).0 <= t[0].0 by {
            assert(r[j] == t[j + 1]);
        }
        lemma_insert_bounded(r, x, t[0].0);
        let ins = insert_by_version(t, x);
        let ri = insert_by_version(r, x);
        assert(ins == seq![t[0]] + ri);
        assert forall|i: int, j: int| 0 <= i < j < ins.len() implies ins[i].0 >= ins[j].0 by {
            if i == 0 {
                assert(ins[j] == ri[j - 1]);
            } else {
                assert(ins[i] == ri[i - 1] && ins[j] == ri[j - 1]);
            }
        }
    } else {
        let ins = insert_by_version(t, x);
        assert(ins == seq![x] + t);
        assert forall|i: int, j: int| 0 <= i < j < ins.len() implies ins[i].0 >= ins[j].0 by {
            if i == 0 {
                assert(ins[j] == t[j - 1]);
                assert(t[0].0 >= t[j - 1].0 || j - 1 == 0);
            } else {
                assert(ins[i] == t[i - 1] && ins[j] == t[j - 1]);
            }
        }
    }
}

proof fn lemma_sort_sorted(s: Seq<(int, Seq<char>)>)
    ensures
        sorted_desc(sort_by_version_desc(s)),
        sort_by_version_desc(s).len() == s.len(),
    decreases s.len(),
{
    if s.len() > 0 {
        lemma_sort_sorted(s.drop_last());
        lemma_insert_sorted(sort_by_version_desc(s.drop_last()), s.last());
    }
}

/// Pruning keeps the newest versions: the versioned images are ordered
/// from the highest version down, the first `keep` of them stay, and every
/// pruned image has a version no higher than any kept one. Images whose
/// tag is not a version number are never pruned.
pub proof fn prune_keeps_newest(tags: Seq<Seq<char>>, keep: nat)
    ensures
        ({
            let sorted = sort_by_version_desc(versioned(tags));
            &&& sorted.len() == versioned(tags).len()
            &&& sorted_desc(sorted)
            &&& (tags.len() > keep && sorted.len() > keep) ==> prune_tags(tags, keep) == sorted.skip(keep as int).map_values(|p: (int, Seq<char>)| p.1)
            &&& (tags.len() <= keep || sorted.len() <= keep) ==> prune_tags(tags, keep).len() == 0
            &&& forall|i: int, j: int| 0 <= i < keep && keep <= j < sorted.len() ==> sorted[i].0 >= sorted[j].0
        }),
{
    lemma_sort_sorted(versioned(tags));
}

proof fn lemma_decimal_digits(n: nat)
    ensures
        crate::schedule::all_digits(decimal(n)),
        crate::schedule::digits_value(decimal(n)) == n,
        decimal(n).len() > 0,
    decreases n,
{
    if n >= 10 {
        lemma_decimal_digits(n / 10);
        let d = decimal(n);
        assert(d.drop_last() == decimal(n / 10));
        assert(crate::schedule::all_digits(d)) by {
            assert forall|i: int| 0 <= i < d.len() implies crate::schedule::is_digit(#[trigger] d[i]) by {
                if i < d.len() - 1 {
                    assert(d[i] == decimal(n / 10)[i]);
                }
            }
        }
        assert((d.last() as int - '0' as int) == n % 10);
        assert(n == (n / 10) * 10 + n % 10) by (nonlinear_arith);
        assert(crate::schedule::digits_value(d) == crate::schedule::digits_value(d.drop_last()) * 10 + (d.last() as int - '0' as int));
        assert(crate::schedule::digits_value(d) == n);
    } else {
        let d = decimal(n);
        assert(d.drop_last() =~= Seq::<char>::empty());
        assert((d.last() as int - '0' as int) == n);
        assert(crate::schedule::digits_value(d.drop_last()) == 0);
        assert(crate::schedule::digits_value(d) == n);
    }
}

/// The version written into an image tag is read back from the tag by
/// pruning: `parse::<u32>` of the decimal form of a version gives it back.
pub proof fn version_tag_round_trip(version: u32)
    ensures
        parse_u32(decimal(version as nat)) == Some(version as int),
{
    lemma_decimal_digits(version as nat);
    let d = decimal(version as nat);
    assert(d[0] != '-' && d[0] != '+') by {
        assert(crate::schedule::is_digit(d[0]));
    }
}

} // verus!
