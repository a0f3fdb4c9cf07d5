//! Parsing of what `ps` prints.

use crate::container::types::{
    Container, ContainerListOptions, ContainerState, PortBinding, PortBindingView,
};
use crate::text::{
    chars_to_string, copy_range, eq_ignore_ascii_case, parse_unsigned, piece_views, split,
    str_to_chars, text_eq_ignore_ascii_case, text_parse_unsigned, text_split, text_views, trim,
    trimmed,
};
use crate::types::{duplicate_opt_text, opt_text};
use std::collections::HashMap;
use vstd::prelude::*;
use vstd::std_specs::hash::obeys_key_model;

verus! {

/// The protocol of a port where none is written.
pub open spec fn default_protocol() -> Seq<char> {
    "tcp"@
}

/// The host address of a published port where none is written.
pub open spec fn default_host_ip() -> Seq<char> {
    "0.0.0.0"@
}

/// The container's side of a mapping, `port` or `port/protocol`: the
/// port and the protocol, `tcp` where none is written.
pub open spec fn container_side(text: Seq<char>) -> Option<(nat, Seq<char>)> {
    let parts = split(text, "/"@);
    match parse_unsigned(parts[0], u16::MAX as nat) {
        Some(port) => Some(
            (
                port,
                if parts.len() > 1 {
                    parts[1]
                } else {
                    default_protocol()
                },
            ),
        ),
        None => None,
    }
}

/// The binding that a port mapping writes.
///
/// `host->container` binds a host port: the host side is `port` or
/// `address:port`, and whatever stands after its last colon is the port.
/// Without exactly one `->` the whole text is the container's side and no
/// host port is bound. Nothing is written where a port is no number of 16
/// bits.
pub open spec fn port_mapping(mapping: Seq<char>) -> Option<PortBindingView> {
    let parts = split(mapping, "->"@);
    if parts.len() == 2 {
        let host_parts = split(parts[0], ":"@);
        match (parse_unsigned(host_parts.last(), u16::MAX as nat), container_side(parts[1])) {
            (Some(host_port), Some(side)) => Some(
                PortBindingView {
                    container_port: side.0,
                    host_port,
                    protocol: side.1,
                    host_ip: if host_parts.len() == 2 {
                        host_parts[0]
                    } else {
                        default_host_ip()
                    },
                },
            ),
            _ => None,
        }
    } else {
        match container_side(mapping) {
            Some(side) => Some(
                PortBindingView {
                    container_port: side.0,
                    host_port: 0,
                    protocol: side.1,
                    host_ip: Seq::empty(),
                },
            ),
            None => None,
        }
    }
}

/// Reads the container's side of a mapping.
fn parse_container_side(text: &[char]) -> (r: Option<(u16, String)>)
    ensures
        r is Some <==> container_side(text@) is Some,
        r matches Some(side) ==> container_side(text@) == Some((side.0 as nat, side.1@)),
{
    let slash = str_to_chars("/");
    proof {
        reveal_strlit("/");
    }
    let parts = text_split(text, slash.as_slice());
    assert(piece_views(parts@)[0] == parts@[0]@);
    match text_parse_unsigned(parts[0].as_slice(), 65535) {
        Some(port) => {
            let protocol = if parts.len() > 1 {
                assert(piece_views(parts@)[1] == parts@[1]@);
                chars_to_string(parts[1].as_slice())
            } else {
                "tcp".to_string()
            };
            Some((port as u16, protocol))
        },
        None => None,
    }
}

/// Parses one port mapping, such as `0.0.0.0:8080->80/tcp` or `80/tcp`.
pub fn parse_port_mapping(mapping: &str) -> (r: Option<PortBinding>)
    ensures
        r is Some <==> port_mapping(mapping@) is Some,
        r matches Some(binding) ==> port_mapping(mapping@) == Some(binding@),
{
    let chars = str_to_chars(mapping);
    let arrow = str_to_chars("->");
    let colon = str_to_chars(":");
    proof {
        reveal_strlit("->");
        reveal_strlit(":");
    }
    let parts = text_split(chars.as_slice(), arrow.as_slice());
    if parts.len() == 2 {
        assert(piece_views(parts@)[0] == parts@[0]@);
        assert(piece_views(parts@)[1] == parts@[1]@);
        let host_parts = text_split(parts[0].as_slice(), colon.as_slice());
        let last = host_parts.len() - 1;
        assert(piece_views(host_parts@).last() == host_parts@[last as int]@);
        let host_port = text_parse_unsigned(host_parts[last].as_slice(), 65535);
        let side = parse_container_side(parts[1].as_slice());
        match (host_port, side) {
            (Some(host_port), Some((container_port, protocol))) => {
                let host_ip = if host_parts.len() == 2 {
                    assert(piece_views(host_parts@)[0] == host_parts@[0]@);
                    chars_to_string(host_parts[0].as_slice())
                } else {
                    "0.0.0.0".to_string()
                };
                Some(
                    PortBinding {
                        container_port,
                        host_port: host_port as u16,
                        protocol,
                        host_ip,
                    },
                )
            },
            _ => None,
        }
    } else {
        match parse_container_side(chars.as_slice()) {
            Some((container_port, protocol)) => Some(
                PortBinding { container_port, host_port: 0, protocol, host_ip: String::new() },
            ),
            None => None,
        }
    }
}

/// The state that a word of the engine stands for, whatever its capitals:
/// `up` counts as running and `stopped` as exited, and a word that names
/// no state counts as created.
pub open spec fn container_state(word: Seq<char>) -> ContainerState {
    if eq_ignore_ascii_case(word, "created"@) {
        ContainerState::Created
    } else if eq_ignore_ascii_case(word, "running"@) || eq_ignore_ascii_case(word, "up"@) {
        ContainerState::Running
    } else if eq_ignore_ascii_case(word, "paused"@) {
        ContainerState::Paused
    } else if eq_ignore_ascii_case(word, "restarting"@) {
        ContainerState::Restarting
    } else if eq_ignore_ascii_case(word, "removing"@) {
        ContainerState::Removing
    } else if eq_ignore_ascii_case(word, "exited"@) || eq_ignore_ascii_case(word, "stopped"@) {
        ContainerState::Exited
    } else if eq_ignore_ascii_case(word, "dead"@) {
        ContainerState::Dead
    } else {
        ContainerState::Created
    }
}

/// Whether `word` is `name`, whatever its capitals.
fn is_word(word: &[char], name: &str) -> (b: bool)
    ensures
        b == eq_ignore_ascii_case(word@, name@),
{
    let chars = str_to_chars(name);
    text_eq_ignore_ascii_case(word, chars.as_slice())
}

/// The state that a word of the engine stands for.
pub fn parse_state(state: &str) -> (r: ContainerState)
    ensures
        r == container_state(state@),
{
    let chars = str_to_chars(state);
    let word = chars.as_slice();
    if is_word(word, "created") {
        ContainerState::Created
    } else if is_word(word, "running") || is_word(word, "up") {
        ContainerState::Running
    } else if is_word(word, "paused") {
        ContainerState::Paused
    } else if is_word(word, "restarting") {
        ContainerState::Restarting
    } else if is_word(word, "removing") {
        ContainerState::Removing
    } else if is_word(word, "exited") || is_word(word, "stopped") {
        ContainerState::Exited
    } else if is_word(word, "dead") {
        ContainerState::Dead
    } else {
        ContainerState::Created
    }
}

/// The arguments that list the containers: `ps`, `--all` and `--size`
/// as the options ask, then `--format json`.
pub open spec fn listing_args(all: bool, size: bool) -> Seq<Seq<char>> {
    seq!["ps"@] + (if all {
        seq!["--all"@]
    } else {
        Seq::empty()
    }) + (if size {
        seq!["--size"@]
    } else {
        Seq::empty()
    }) + seq!["--format"@, "json"@]
}

/// The arguments that list the containers.
pub fn list_args(options: &ContainerListOptions) -> (args: Vec<String>)
    ensures
        text_views(args@) == listing_args(options.all, options.size),
{
    let mut args: Vec<String> = Vec::new();
    args.push("ps".to_string());
    if options.all {
        args.push("--all".to_string());
    }
    if options.size {
        args.push("--size".to_string());
    }
    args.push("--format".to_string());
    args.push("json".to_string());
    assert(text_views(args@) =~= listing_args(options.all, options.size));
    args
}

/// The index of the first character of `s`, at or after `i`, that is
/// not `c`.
pub open spec fn skip_char(s: Seq<char>, c: char, i: int) -> int
    decreases s.len() - i,
{
    if 0 <= i < s.len() && s[i] == c {
        skip_char(s, c, i + 1)
    } else {
        i
    }
}

/// The name of a container, from the names that the engine prints:
/// without the slashes at the start, and up to the first comma.
pub open spec fn first_name(names: Seq<char>) -> Seq<char> {
    split(names.skip(skip_char(names, '/', 0)), ","@)[0]
}

/// The name of a container, from the names that the engine prints.
pub fn container_name(names: &str) -> (name: String)
    ensures
        name@ == first_name(names@),
{
    let chars = str_to_chars(names);
    let mut start: usize = 0;
    while start < chars.len() && chars[start] == '/'
        invariant
            start <= chars.len(),
            skip_char(chars@, '/', 0) == skip_char(chars@, '/', start as int),
        decreases chars.len() - start,
    {
        start += 1;
    }
    let rest = copy_range(chars.as_slice(), start, chars.len());
    assert(rest@ =~= chars@.skip(start as int));
    let comma = str_to_chars(",");
    proof {
        reveal_strlit(",");
    }
    let pieces = text_split(rest.as_slice(), comma.as_slice());
    assert(piece_views(pieces@)[0] == pieces@[0]@);
    chars_to_string(pieces[0].as_slice())
}

/// The views of a list of bindings, in order.
pub open spec fn binding_views(v: Seq<PortBinding>) -> Seq<PortBindingView> {
    v.map_values(|b: PortBinding| b@)
}

/// The bindings that a list of mappings writes: each mapping is read
/// without the white space around it, and those that write no binding
/// are left out.
pub open spec fn port_bindings(mappings: Seq<Seq<char>>) -> Seq<PortBindingView>
    decreases mappings.len(),
{
    if mappings.len() == 0 {
        Seq::empty()
    } else {
        match port_mapping(trimmed(mappings.last())) {
            Some(binding) => port_bindings(mappings.drop_last()).push(binding),
            None => port_bindings(mappings.drop_last()),
        }
    }
}

/// Parses the ports of a container as the engine prints them in one
/// text, the mappings parted by commas.
pub fn parse_ports(ports: &str) -> (bindings: Vec<PortBinding>)
    ensures
        binding_views(bindings@) == port_bindings(split(ports@, ","@)),
{
    let chars = str_to_chars(ports);
    let comma = str_to_chars(",");
    proof {
        reveal_strlit(",");
    }
    let pieces = text_split(chars.as_slice(), comma.as_slice());
    let ghost all = split(ports@, ","@);
    let mut bindings: Vec<PortBinding> = Vec::new();
    let mut i: usize = 0;
    assert(all.take(0) =~= Seq::<Seq<char>>::empty());
    while i < pieces.len()
        invariant
            i <= pieces.len(),
            all == piece_views(pieces@),
            binding_views(bindings@) == port_bindings(all.take(i as int)),
        decreases pieces.len() - i,
    {
        assert(all.take(i + 1).drop_last() =~= all.take(i as int));
        assert(all.take(i + 1).last() == pieces@[i as int]@);
        let mapping = chars_to_string(trim(pieces[i].as_slice()).as_slice());
        match parse_port_mapping(mapping.as_str()) {
            Some(binding) => {
                let ghost before = binding_views(bindings@);
                bindings.push(binding);
                assert(binding_views(bindings@) =~= before.push(binding@));
            },
            None => {},
        }
        i += 1;
    }
    assert(all.take(i as int) =~= all);
    bindings
}

/// The views of a list of pairs of strings, in order.
pub open spec fn pair_views(v: Seq<(String, String)>) -> Seq<(Seq<char>, Seq<char>)> {
    v.map_values(|p: (String, String)| (p.0@, p.1@))
}

/// The labels that a list of `key=value` texts writes: those with
/// exactly one `=`, in order.
pub open spec fn label_pairs(labels: Seq<Seq<char>>) -> Seq<(Seq<char>, Seq<char>)>
    decreases labels.len(),
{
    if labels.len() == 0 {
        Seq::empty()
    } else {
        let parts = split(labels.last(), "="@);
        if parts.len() == 2 {
            label_pairs(labels.drop_last()).push((parts[0], parts[1]))
        } else {
            label_pairs(labels.drop_last())
        }
    }
}

/// Parses the labels of a container as the engine prints them in one
/// text, `key=value` parted by commas. Where a key stands twice, the
/// later pair is the one that counts.
pub fn parse_labels(labels: &str) -> (pairs: Vec<(String, String)>)
    ensures
        pair_views(pairs@) == label_pairs(split(labels@, ","@)),
{
    let chars = str_to_chars(labels);
    let comma = str_to_chars(",");
    let equals = str_to_chars("=");
    proof {
        reveal_strlit(",");
        reveal_strlit("=");
    }
    let pieces = text_split(chars.as_slice(), comma.as_slice());
    let ghost all = split(labels@, ","@);
    let mut pairs: Vec<(String, String)> = Vec::new();
    let mut i: usize = 0;
    assert(all.take(0) =~= Seq::<Seq<char>>::empty());
    while i < pieces.len()
        invariant
            i <= pieces.len(),
            all == piece_views(pieces@),
            equals@ == "="@,
            equals@.len() == 1,
            pair_views(pairs@) == label_pairs(all.take(i as int)),
        decreases pieces.len() - i,
    {
        assert(all.take(i + 1).drop_last() =~= all.take(i as int));
        assert(all.take(i + 1).last() == pieces@[i as int]@);
        let parts = text_split(pieces[i].as_slice(), equals.as_slice());
        if parts.len() == 2 {
            assert(piece_views(parts@)[0] == parts@[0]@);
            assert(piece_views(parts@)[1] == parts@[1]@);
            let pair = (
                chars_to_string(parts[0].as_slice()),
                chars_to_string(parts[1].as_slice()),
            );
            let ghost before = pair_views(pairs@);
            pairs.push(pair);
            assert(pair_views(pairs@) =~= before.push((parts@[0]@, parts@[1]@)));
        }
        i += 1;
    }
    assert(all.take(i as int) =~= all);
    pairs
}

/// The binding that a port written as an object stands for.
///
/// Nothing without a container port. The two ports are cut down to 16
/// bits; the host port is zero, the protocol `tcp` and the host address
/// `0.0.0.0` where the object gives none.
pub open spec fn object_binding(
    private_port: Option<u64>,
    public_port: Option<u64>,
    protocol: Option<Seq<char>>,
    host_ip: Option<Seq<char>>,
) -> Option<PortBindingView> {
    match private_port {
        Some(private) => Some(
            PortBindingView {
                container_port: (private % 0x10000) as nat,
                host_port: match public_port {
                    Some(public) => (public % 0x10000) as nat,
                    None => 0,
                },
                protocol: match protocol {
                    Some(p) => p,
                    None => default_protocol(),
                },
                host_ip: match host_ip {
                    Some(ip) => ip,
                    None => default_host_ip(),
                },
            },
        ),
        None => None,
    }
}

/// The binding that a port written as an object stands for, from what
/// the object gives as container port, host port, protocol and host
/// address.
pub fn parse_port_object(
    private_port: Option<u64>,
    public_port: Option<u64>,
    protocol: Option<String>,
    host_ip: Option<String>,
) -> (r: Option<PortBinding>)
    ensures
        (match r {
            Some(binding) => Some(binding@),
            None => None,
        }) == object_binding(
            private_port,
            public_port,
            crate::types::opt_text(protocol),
            crate::types::opt_text(host_ip),
        ),
{
    match private_port {
        Some(private) => {
            let container_port: u16 = (private % 0x10000) as u16;
            let host_port: u16 = match public_port {
                Some(public) => (public % 0x10000) as u16,
                None => 0,
            };
            let protocol = match protocol {
                Some(p) => p,
                None => "tcp".to_string(),
            };
            let host_ip = match host_ip {
                Some(ip) => ip,
                None => "0.0.0.0".to_string(),
            };
            Some(PortBinding { container_port, host_port, protocol, host_ip })
        },
        None => None,
    }
}

/// A port as the engine gives it in a list of objects.
#[derive(Debug)]
pub struct RawPort {
    pub private_port: Option<u64>,
    pub public_port: Option<u64>,
    pub protocol: Option<String>,
    pub host_ip: Option<String>,
}

/// The ports of a container as the engine gives them.
#[derive(Debug)]
pub enum RawPorts {
    /// In one text, the mappings parted by commas.
    Text(String),
    /// As a list of objects.
    Objects(Vec<RawPort>),
    /// Not at all, or as something else.
    Absent,
}

/// The labels of a container as the engine gives them.
#[derive(Debug)]
pub enum RawLabels {
    /// As an object: each key with its value, if the value is a text.
    Entries(Vec<(String, Option<String>)>),
    /// In one text, `key=value` parted by commas.
    Text(String),
    /// Not at all, or as something else.
    Absent,
}

/// What the engine gives for one container, field by field. A field is
/// `None` where the engine gives none of the kind that is looked for.
#[derive(Debug)]
pub struct RawContainer {
    /// The text under `ID`.
    pub id: Option<String>,
    /// The text under `Id`.
    pub id_alt: Option<String>,
    /// The text under `Names`.
    pub names: Option<String>,
    /// The text under `Image`.
    pub image: Option<String>,
    /// The text under `ImageID`.
    pub image_id: Option<String>,
    /// The text under `Command`.
    pub command: Option<String>,
    /// The whole number under `Created`.
    pub created: Option<i64>,
    /// The whole number under `CreatedAt`.
    pub created_at: Option<i64>,
    /// The text under `State`.
    pub state: Option<String>,
    /// The text under `Status`.
    pub status: Option<String>,
    /// What stands under `Ports`.
    pub ports: RawPorts,
    /// What stands under `Labels`.
    pub labels: RawLabels,
    /// The whole number under `SizeRw`.
    pub size_rw: Option<i64>,
    /// The whole number under `SizeRootFs`.
    pub size_root_fs: Option<i64>,
}

/// The text, or the empty text where there is none.
pub open spec fn text_or_empty(text: Option<Seq<char>>) -> Seq<char> {
    match text {
        Some(t) => t,
        None => Seq::empty(),
    }
}

/// The text, or the empty text where there is none.
pub fn unwrap_text(text: Option<String>) -> (r: String)
    ensures
        r@ == text_or_empty(opt_text(text)),
{
    match text {
        Some(t) => t,
        None => String::new(),
    }
}

/// The views of a list of ports given as objects, in order.
pub open spec fn raw_port_views(v: Seq<RawPort>) -> Seq<
    (Option<u64>, Option<u64>, Option<Seq<char>>, Option<Seq<char>>),
> {
    v.map_values(
        |p: RawPort| (p.private_port, p.public_port, opt_text(p.protocol), opt_text(p.host_ip)),
    )
}

/// The bindings that a list of ports given as objects stands for: those
/// without a container port are left out.
pub open spec fn object_bindings(
    ports: Seq<(Option<u64>, Option<u64>, Option<Seq<char>>, Option<Seq<char>>)>,
) -> Seq<PortBindingView>
    decreases ports.len(),
{
    if ports.len() == 0 {
        Seq::empty()
    } else {
        let p = ports.last();
        match object_binding(p.0, p.1, p.2, p.3) {
            Some(binding) => object_bindings(ports.drop_last()).push(binding),
            None => object_bindings(ports.drop_last()),
        }
    }
}

/// The bindings of a container, from its ports as the engine gives them.
pub open spec fn bindings_of(ports: RawPorts) -> Seq<PortBindingView> {
    match ports {
        RawPorts::Text(text) => port_bindings(split(text@, ","@)),
        RawPorts::Objects(list) => object_bindings(raw_port_views(list@)),
        RawPorts::Absent => Seq::empty(),
    }
}

/// The bindings of a container, from its ports as the engine gives them.
pub fn bindings_from_raw(ports: &RawPorts) -> (bindings: Vec<PortBinding>)
    ensures
        binding_views(bindings@) == bindings_of(*ports),
{
    match ports {
        RawPorts::Text(text) => parse_ports(text.as_str()),
        RawPorts::Objects(list) => {
            let ghost all = raw_port_views(list@);
            let mut bindings: Vec<PortBinding> = Vec::new();
            let mut i: usize = 0;
            assert(all.take(0) =~= Seq::<
                (Option<u64>, Option<u64>, Option<Seq<char>>, Option<Seq<char>>),
            >::empty());
            while i < list.len()
                invariant
                    i <= list.len(),
                    all == raw_port_views(list@),
                    binding_views(bindings@) == object_bindings(all.take(i as int)),
                decreases list.len() - i,
            {
                assert(all.take(i + 1).drop_last() =~= all.take(i as int));
                assert(all.take(i + 1).last() == all[i as int]);
                let port = &list[i];
                match parse_port_object(
                    port.private_port,
                    port.public_port,
                    duplicate_opt_text(&port.protocol),
                    duplicate_opt_text(&port.host_ip),
                ) {
                    Some(binding) => {
                        let ghost before = binding_views(bindings@);
                        bindings.push(binding);
                        assert(binding_views(bindings@) =~= before.push(binding@));
                    },
                    None => {},
                }
                i += 1;
            }
            assert(all.take(i as int) =~= all);
            bindings
        },
        RawPorts::Absent => {
            let bindings: Vec<PortBinding> = Vec::new();
            assert(binding_views(bindings@) =~= Seq::<PortBindingView>::empty());
            bindings
        },
    }
}

/// The views of a list of entries of an object, in order.
pub open spec fn entry_views(v: Seq<(String, Option<String>)>) -> Seq<
    (Seq<char>, Option<Seq<char>>),
> {
    v.map_values(|e: (String, Option<String>)| (e.0@, opt_text(e.1)))
}

/// The labels among the entries of an object: those whose value is a
/// text, in order.
pub open spec fn text_entries(entries: Seq<(Seq<char>, Option<Seq<char>>)>) -> Seq<
    (Seq<char>, Seq<char>),
>
    decreases entries.len(),
{
    if entries.len() == 0 {
        Seq::empty()
    } else {
        match entries.last().1 {
            Some(value) => text_entries(entries.drop_last()).push((entries.last().0, value)),
            None => text_entries(entries.drop_last()),
        }
    }
}

/// The labels of a container, as pairs of key and value in the order in
/// which they are given.
pub open spec fn labels_of(labels: RawLabels) -> Seq<(Seq<char>, Seq<char>)> {
    match labels {
        RawLabels::Entries(entries) => text_entries(entry_views(entries@)),
        RawLabels::Text(text) => label_pairs(split(text@, ","@)),
        RawLabels::Absent => Seq::empty(),
    }
}

/// The labels of a container, as pairs of key and value in the order in
/// which they are given. Where a key stands twice, the later pair is the
/// one that counts.
pub fn labels_from_raw(labels: &RawLabels) -> (pairs: Vec<(String, String)>)
    ensures
        pair_views(pairs@) == labels_of(*labels),
{
    match labels {
        RawLabels::Entries(entries) => {
            let ghost all = entry_views(entries@);
            let mut pairs: Vec<(String, String)> = Vec::new();
            let mut i: usize = 0;
            assert(all.take(0) =~= Seq::<(Seq<char>, Option<Seq<char>>)>::empty());
            while i < entries.len()
                invariant
                    i <= entries.len(),
                    all == entry_views(entries@),
                    pair_views(pairs@) == text_entries(all.take(i as int)),
                decreases entries.len() - i,
            {
                assert(all.take(i + 1).drop_last() =~= all.take(i as int));
                assert(all.take(i + 1).last() == all[i as int]);
                match &entries[i].1 {
                    Some(value) => {
                        let ghost before = pair_views(pairs@);
                        pairs.push((entries[i].0.clone(), value.clone()));
                        assert(pair_views(pairs@) =~= before.push((entries@[i as int].0@, value@)));
                    },
                    None => {},
                }
                i += 1;
            }
            assert(all.take(i as int) =~= all);
            pairs
        },
        RawLabels::Text(text) => parse_labels(text.as_str()),
        RawLabels::Absent => {
            let pairs: Vec<(String, String)> = Vec::new();
            assert(pair_views(pairs@) =~= Seq::<(Seq<char>, Seq<char>)>::empty());
            pairs
        },
    }
}

/// The map that holds each of the pairs under its key, a later pair
/// taking the place of an earlier one under the same key.
pub open spec fn pairs_map(pairs: Seq<(String, String)>) -> Map<String, String>
    decreases pairs.len(),
{
    if pairs.len() == 0 {
        Map::empty()
    } else {
        pairs_map(pairs.drop_last()).insert(pairs.last().0, pairs.last().1)
    }
}

/// A map with the given labels, a later pair taking the place of an
/// earlier one under the same key.
///
/// What the map holds is known as far as the map of std is: where
/// strings obey the model of keys of a hash map, it is [`pairs_map`] of
/// the pairs.
pub fn label_map(pairs: Vec<(String, String)>) -> (labels: HashMap<String, String>)
    ensures
        obeys_key_model::<String>() ==> labels@ == pairs_map(pairs@),
{
    broadcast use vstd::std_specs::hash::group_hash_axioms;

    let mut labels: HashMap<String, String> = HashMap::new();
    let mut i: usize = 0;
    assert(pairs@.take(0) =~= Seq::<(String, String)>::empty());
    while i < pairs.len()
        invariant
            i <= pairs.len(),
            obeys_key_model::<String>() ==> labels@ == pairs_map(pairs@.take(i as int)),
        decreases pairs.len() - i,
    {
        assert(pairs@.take(i + 1).drop_last() =~= pairs@.take(i as int));
        assert(pairs@.take(i + 1).last() == pairs@[i as int]);
        labels.insert(pairs[i].0.clone(), pairs[i].1.clone());
        i += 1;
    }
    assert(pairs@.take(i as int) =~= pairs@);
    labels
}

/// The first of two choices that is there.
pub open spec fn first_of<T>(first: Option<T>, second: Option<T>) -> Option<T> {
    if first is Some {
        first
    } else {
        second
    }
}

/// The container that the engine tells of.
///
/// The id is what stands under `ID`, else under `Id`; the time of
/// creation what stands under `Created`, else under `CreatedAt`. The name
/// is the first of the names, and the state is read from its word,
/// `created` where there is none. Texts that are not given are empty,
/// and a time that is not given is zero. Networks and mounts are not
/// listed.
pub fn parse_container(raw: RawContainer) -> (container: Container)
    ensures
        container.id@ == text_or_empty(first_of(opt_text(raw.id), opt_text(raw.id_alt))),
        container.name@ == first_name(text_or_empty(opt_text(raw.names))),
        container.image@ == text_or_empty(opt_text(raw.image)),
        container.image_id@ == text_or_empty(opt_text(raw.image_id)),
        container.command@ == text_or_empty(opt_text(raw.command)),
        container.created == (match first_of(raw.created, raw.created_at) {
            Some(time) => time,
            None => 0,
        }),
        container.state == (match raw.state {
            Some(word) => container_state(word@),
            None => ContainerState::Created,
        }),
        container.status@ == text_or_empty(opt_text(raw.status)),
        binding_views(container.ports@) == bindings_of(raw.ports),
        container.size_rw == raw.size_rw,
        container.size_root_fs == raw.size_root_fs,
        container.mounts@.len() == 0,
{
    let ports = bindings_from_raw(&raw.ports);
    let labels = label_map(labels_from_raw(&raw.labels));
    let id = match raw.id {
        Some(id) => id,
        None => unwrap_text(raw.id_alt),
    };
    let names = unwrap_text(raw.names);
    let created = match raw.created {
        Some(time) => time,
        None => match raw.created_at {
            Some(time) => time,
            None => 0,
        },
    };
    let state = match raw.state {
        Some(word) => parse_state(word.as_str()),
        None => ContainerState::Created,
    };
    Container {
        id,
        name: container_name(names.as_str()),
        image: unwrap_text(raw.image),
        image_id: unwrap_text(raw.image_id),
        command: unwrap_text(raw.command),
        created,
        state,
        status: unwrap_text(raw.status),
        ports,
        labels,
        size_rw: raw.size_rw,
        size_root_fs: raw.size_root_fs,
        networks: HashMap::new(),
        mounts: Vec::new(),
    }
}

} // verus!
