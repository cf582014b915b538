//! Choosing audio devices. The host's devices are described here by the
//! plain facts the client reads of them: the name a device reports (if it
//! reports one) and whether it offers a stream configuration.
use vstd::prelude::*;

verus! {

/// What the client knows of one device of the host.
pub struct DeviceEntry {
    /// The name the device reports, if it reports one.
    pub name: Option<String>,
    /// Whether the device offers the stream configuration the caller asks
    /// about.
    pub has_config: bool,
}

/// A device entry with its name as a character sequence.
pub struct DeviceModel {
    pub name: Option<Seq<char>>,
    pub has_config: bool,
}

impl View for DeviceEntry {
    type V = DeviceModel;

    open spec fn view(&self) -> DeviceModel {
        DeviceModel {
            name: match self.name {
                Some(n) => Some(n@),
                None => None,
            },
            has_config: self.has_config,
        }
    }
}

/// The entries of a device list as models.
pub open spec fn models(entries: Seq<DeviceEntry>) -> Seq<DeviceModel> {
    entries.map_values(|e: DeviceEntry| e@)
}

/// The strings of a list as character sequences.
pub open spec fn texts(v: Seq<String>) -> Seq<Seq<char>> {
    v.map_values(|s: String| s@)
}

/// The names offered to the user: those of the devices that report a
/// name and offer a configuration, in the host's order.
pub open spec fn spec_usable_names(entries: Seq<DeviceModel>) -> Seq<Seq<char>>
    decreases entries.len(),
{
    if entries.len() == 0 {
        Seq::<Seq<char>>::empty()
    } else {
        let rest = spec_usable_names(entries.drop_last());
        let e = entries.last();
        if e.has_config && e.name is Some {
            rest.push(e.name->0)
        } else {
            rest
        }
    }
}

/// Whether a device is the one asked for by name and can be opened.
pub open spec fn spec_is_match(e: DeviceModel, target: Seq<char>) -> bool {
    e.name == Some(target) && e.has_config
}

/// The position of the first device from `i` on that `spec_is_match`es.
pub open spec fn spec_first_match(entries: Seq<DeviceModel>, target: Seq<char>, i: int) -> Option<
    int,
>
    decreases entries.len() - i,
{
    if i < 0 || i >= entries.len() {
        None
    } else if spec_is_match(entries[i], target) {
        Some(i)
    } else {
        spec_first_match(entries, target, i + 1)
    }
}

/// Which device a stream is opened on.
#[derive(Debug, PartialEq, Eq, Structural, Clone, Copy)]
pub enum DeviceChoice {
    /// The device at this position of the host's list.
    Listed(usize),
    /// The host's default input device.
    DefaultInput,
    /// The host's default output device.
    DefaultOutput,
    /// No device can be had; the stream is not started.
    Unavailable,
}

/// The device found for a configured name: the first listed device of
/// that name that can be opened, or else the host's default input device
/// (for either direction), when there is one.
pub open spec fn spec_lookup(
    listed: Option<Seq<DeviceModel>>,
    target: Seq<char>,
    has_default_input: bool,
) -> Option<DeviceChoice> {
    let fallback = if has_default_input {
        Some(DeviceChoice::DefaultInput)
    } else {
        None
    };
    match listed {
        Some(es) => match spec_first_match(es, target, 0) {
            Some(i) => Some(DeviceChoice::Listed(i as usize)),
            None => fallback,
        },
        None => fallback,
    }
}

/// The input device of a stream: the configured one if it is found,
/// else the host's default input device, else none.
pub open spec fn spec_resolve_input(
    configured: Option<Seq<char>>,
    listed: Option<Seq<DeviceModel>>,
    has_default_input: bool,
) -> DeviceChoice {
    let found = match configured {
        Some(name) => spec_lookup(listed, name, has_default_input),
        None => None,
    };
    match found {
        Some(c) => c,
        None => if has_default_input {
            DeviceChoice::DefaultInput
        } else {
            DeviceChoice::Unavailable
        },
    }
}

/// The output device of a stream: whatever the lookup of the configured
/// name finds, else the host's default output device, else none.
pub open spec fn spec_resolve_output(
    configured: Option<Seq<char>>,
    listed: Option<Seq<DeviceModel>>,
    has_default_input: bool,
    has_default_output: bool,
) -> DeviceChoice {
    let found = match configured {
        Some(name) => spec_lookup(listed, name, has_default_input),
        None => None,
    };
    match found {
        Some(c) => c,
        None => if has_default_output {
            DeviceChoice::DefaultOutput
        } else {
            DeviceChoice::Unavailable
        },
    }
}

/// An optional string as an optional character sequence.
pub open spec fn opt_text(s: Option<&str>) -> Option<Seq<char>> {
    match s {
        Some(t) => Some(t@),
        None => None,
    }
}

/// An optional device list as an optional list of models.
pub open spec fn opt_models(listed: Option<&Vec<DeviceEntry>>) -> Option<Seq<DeviceModel>> {
    match listed {
        Some(v) => Some(models(v@)),
        None => None,
    }
}

/// The names offered to the user are exactly the names of the devices
/// that report a name and offer a configuration, each once, in the host's
/// order, from the first device on.
pub proof fn lemma_usable_names_are_the_usable_devices(entries: Seq<DeviceModel>)
    ensures
        spec_usable_names(entries) == entries.filter(
            |e: DeviceModel| e.has_config && e.name is Some,
        ).map_values(|e: DeviceModel| e.name->0),
    decreases entries.len(),
{
    let pred = |e: DeviceModel| e.has_config && e.name is Some;
    let name_of = |e: DeviceModel| e.name->0;
    if entries.len() > 0 {
        lemma_usable_names_are_the_usable_devices(entries.drop_last());
        let sub = entries.drop_last().filter(pred);
        reveal_with_fuel(Seq::<_>::filter, 1);
        assert(entries.filter(pred) == if pred(entries.last()) {
            sub.push(entries.last())
        } else {
            sub
        });
        if pred(entries.last()) {
            assert(sub.push(entries.last()).map_values(name_of) =~= sub.map_values(name_of).push(
                entries.last().name->0,
            ));
        }
    } else {
        assert(entries.filter(pred) =~= Seq::<DeviceModel>::empty());
        assert(entries.filter(pred).map_values(name_of) =~= Seq::<Seq<char>>::empty());
    }
}

/// The search from position `i` finds `j` when `j` is named `target` and
/// can be opened and no device from `i` up to `j` is.
proof fn lemma_first_match_from(entries: Seq<DeviceModel>, target: Seq<char>, i: int, j: int)
    requires
        0 <= i <= j < entries.len(),
        entries[j].name == Some(target) && entries[j].has_config,
        forall|k: int|
            #![trigger entries[k]]
            i <= k < j ==> !(entries[k].name == Some(target) && entries[k].has_config),
    ensures
        spec_first_match(entries, target, i) == Some(j),
    decreases j - i,
{
    if i < j {
        lemma_first_match_from(entries, target, i + 1, j);
    }
}

/// The search from position `i` finds nothing when no device from `i` on
/// is named `target` and can be opened.
proof fn lemma_no_match_from(entries: Seq<DeviceModel>, target: Seq<char>, i: int)
    requires
        0 <= i,
        forall|k: int|
            #![trigger entries[k]]
            i <= k < entries.len() ==> !(entries[k].name == Some(target)
                && entries[k].has_config),
    ensures
        spec_first_match(entries, target, i) is None,
    decreases entries.len() - i,
{
    if i < entries.len() {
        lemma_no_match_from(entries, target, i + 1);
    }
}

/// What the search finds from position `i` is a device at or after `i`
/// that is named `target` and can be opened, and none between `i` and it;
/// when it finds nothing, no device from `i` on is one.
proof fn lemma_match_found_from(entries: Seq<DeviceModel>, target: Seq<char>, i: int)
    requires
        0 <= i,
    ensures
        spec_first_match(entries, target, i) matches Some(j) ==> {
            &&& i <= j < entries.len()
            &&& entries[j].name == Some(target) && entries[j].has_config
            &&& forall|k: int|
                #![trigger entries[k]]
                i <= k < j ==> !(entries[k].name == Some(target)
                    && entries[k].has_config)
        },
        spec_first_match(entries, target, i) is None ==> forall|k: int|
            #![trigger entries[k]]
            i <= k < entries.len() ==> !(entries[k].name == Some(target)
                && entries[k].has_config),
    decreases entries.len() - i,
{
    if i < entries.len() && !(entries[i].name == Some(target) && entries[i].has_config) {
        lemma_match_found_from(entries, target, i + 1);
    }
}

/// The device found by name is the first device, from position 0 on, that
/// is named `target` and can be opened; nothing is found exactly when no
/// device is.
pub proof fn lemma_find_is_first_match(entries: Seq<DeviceModel>, target: Seq<char>, j: int)
    ensures
        (0 <= j < entries.len() && entries[j].name == Some(target) && entries[j].has_config
            && forall|k: int|
            #![trigger entries[k]]
            0 <= k < j ==> !(entries[k].name == Some(target)
                && entries[k].has_config)) ==> spec_first_match(entries, target, 0) == Some(j),
        (spec_first_match(entries, target, 0) is None) <==> (forall|k: int|
            #![trigger entries[k]]
            0 <= k < entries.len() ==> !(entries[k].name == Some(target)
                && entries[k].has_config)),
        spec_first_match(entries, target, 0) matches Some(i) ==> {
            &&& 0 <= i < entries.len()
            &&& entries[i].name == Some(target) && entries[i].has_config
        },
{
    if 0 <= j < entries.len() && entries[j].name == Some(target) && entries[j].has_config
        && forall|k: int|
        #![trigger entries[k]]
        0 <= k < j ==> !(entries[k].name == Some(target) && entries[k].has_config) {
        lemma_first_match_from(entries, target, 0, j);
    }
    lemma_match_found_from(entries, target, 0);
    if forall|k: int|
        #![trigger entries[k]]
        0 <= k < entries.len() ==> !(entries[k].name == Some(target)
            && entries[k].has_config) {
        lemma_no_match_from(entries, target, 0);
    }
}

/// The lookup of a configured name gives the first listed device of that
/// name that can be opened; when no listed device is one, or there is no
/// list, it gives the default input device if there is one, else nothing.
pub proof fn lemma_lookup_first_or_default(
    listed: Option<Seq<DeviceModel>>,
    target: Seq<char>,
    has_default_input: bool,
    j: int,
)
    ensures
        ({
            &&& listed matches Some(es)
            &&& 0 <= j < es.len() && es[j].name == Some(target) && es[j].has_config
            &&& forall|k: int|
                #![trigger es[k]]
                0 <= k < j ==> !(es[k].name == Some(target) && es[k].has_config)
        }) ==> spec_lookup(listed, target, has_default_input) == Some(
            DeviceChoice::Listed(j as usize),
        ),
        (listed matches Some(es) ==> forall|k: int|
            #![trigger es[k]]
            0 <= k < es.len() ==> !(es[k].name == Some(target) && es[k].has_config))
            ==> spec_lookup(listed, target, has_default_input) == (if has_default_input {
            Some(DeviceChoice::DefaultInput)
        } else {
            None
        }),
{
    if let Some(es) = listed {
        lemma_find_is_first_match(es, target, j);
    }
}

/// Where each stream is opened. A configured device that is listed and
/// can be opened is used, the first such by position. Otherwise an input
/// stream uses the default input device, and an output stream uses the
/// default input device when a configured name was looked up and there is
/// one, else the default output device; with neither, no stream is opened.
pub proof fn lemma_device_resolution(
    configured: Option<Seq<char>>,
    listed: Option<Seq<DeviceModel>>,
    has_default_input: bool,
    has_default_output: bool,
    j: int,
)
    ensures
        ({
            &&& configured matches Some(name)
            &&& listed matches Some(es)
            &&& 0 <= j < es.len() && es[j].name == Some(name) && es[j].has_config
            &&& forall|k: int|
                #![trigger es[k]]
                0 <= k < j ==> !(es[k].name == Some(name) && es[k].has_config)
        }) ==> spec_resolve_input(configured, listed, has_default_input) == DeviceChoice::Listed(
            j as usize,
        ) && spec_resolve_output(configured, listed, has_default_input, has_default_output)
            == DeviceChoice::Listed(j as usize),
        configured is None ==> spec_resolve_input(configured, listed, has_default_input) == (
        if has_default_input {
            DeviceChoice::DefaultInput
        } else {
            DeviceChoice::Unavailable
        }),
        configured is None ==> spec_resolve_output(
            configured,
            listed,
            has_default_input,
            has_default_output,
        ) == (if has_default_output {
            DeviceChoice::DefaultOutput
        } else {
            DeviceChoice::Unavailable
        }),
        configured is Some && listed is None ==> spec_resolve_output(
            configured,
            listed,
            has_default_input,
            has_default_output,
        ) == (if has_default_input {
            DeviceChoice::DefaultInput
        } else if has_default_output {
            DeviceChoice::DefaultOutput
        } else {
            DeviceChoice::Unavailable
        }),
        ({
            &&& configured matches Some(name)
            &&& listed matches Some(es) ==> forall|k: int|
                #![trigger es[k]]
                0 <= k < es.len() ==> !(es[k].name == Some(name) && es[k].has_config)
        }) ==> spec_resolve_input(configured, listed, has_default_input) == (if has_default_input {
            DeviceChoice::DefaultInput
        } else {
            DeviceChoice::Unavailable
        }) && spec_resolve_output(configured, listed, has_default_input, has_default_output) == (
        if has_default_input {
            DeviceChoice::DefaultInput
        } else if has_default_output {
            DeviceChoice::DefaultOutput
        } else {
            DeviceChoice::Unavailable
        }),
        spec_resolve_input(configured, listed, has_default_input) != DeviceChoice::DefaultOutput,
        !has_default_input && !has_default_output ==> (spec_resolve_input(
            configured,
            listed,
            has_default_input,
        ) is Listed || spec_resolve_input(configured, listed, has_default_input) is Unavailable),
{
    if let Some(name) = configured {
        lemma_lookup_first_or_default(listed, name, has_default_input, j);
    }
}

/// The names of the devices to offer the user.
pub fn usable_device_names(entries: &Vec<DeviceEntry>) -> (names: Vec<String>)
    ensures
        texts(names@) == spec_usable_names(models(entries@)),
{
    let mut names: Vec<String> = Vec::new();
    let mut i: usize = 0;
    while i < entries.len()
        invariant
            i <= entries@.len(),
            texts(names@) == spec_usable_names(models(entries@).take(i as int)),
        decreases entries@.len() - i,
    {
        let e = &entries[i];
        assert(models(entries@).take(i + 1).drop_last() =~= models(entries@).take(i as int));
        assert(models(entries@).take(i + 1).last() == e@);
        if e.has_config {
            match &e.name {
                Some(n) => {
                    let ghost before = names@;
                    names.push(n.clone());
                    assert(texts(names@) =~= texts(before).push(n@));
                },
                None => {},
            }
        }
        i += 1;
    }
    assert(models(entries@).take(entries@.len() as int) =~= models(entries@));
    names
}

/// The position of the first device named `target` that can be opened.
pub fn find_device(entries: &Vec<DeviceEntry>, target: &str) -> (r: Option<usize>)
    ensures
        match r {
            Some(i) => spec_first_match(models(entries@), target@, 0) == Some(i as int),
            None => spec_first_match(models(entries@), target@, 0) is None,
        },
{
    let wanted: String = target.to_owned();
    let mut i: usize = 0;
    while i < entries.len()
        invariant
            i <= entries@.len(),
            wanted@ == target@,
            spec_first_match(models(entries@), target@, 0) == spec_first_match(
                models(entries@),
                target@,
                i as int,
            ),
        decreases entries@.len() - i,
    {
        let e = &entries[i];
        assert(models(entries@)[i as int] == e@);
        if e.has_config {
            match &e.name {
                Some(n) => {
                    if n.eq(&wanted) {
                        return Some(i);
                    }
                },
                None => {},
            }
        }
        i += 1;
    }
    None
}

/// The input device of a capture stream (see `spec_resolve_input`).
pub fn resolve_input_device(
    configured: Option<&str>,
    listed: Option<&Vec<DeviceEntry>>,
    has_default_input: bool,
) -> (c: DeviceChoice)
    ensures
        c == spec_resolve_input(opt_text(configured), opt_models(listed), has_default_input),
{
    let found = match configured {
        Some(name) => lookup(listed, name, has_default_input),
        None => None,
    };
    match found {
        Some(c) => c,
        None => if has_default_input {
            DeviceChoice::DefaultInput
        } else {
            DeviceChoice::Unavailable
        },
    }
}

/// The output device of a playback stream (see `spec_resolve_output`).
pub fn resolve_output_device(
    configured: Option<&str>,
    listed: Option<&Vec<DeviceEntry>>,
    has_default_input: bool,
    has_default_output: bool,
) -> (c: DeviceChoice)
    ensures
        c == spec_resolve_output(
            opt_text(configured),
            opt_models(listed),
            has_default_input,
            has_default_output,
        ),
{
    let found = match configured {
        Some(name) => lookup(listed, name, has_default_input),
        None => None,
    };
    match found {
        Some(c) => c,
        None => if has_default_output {
            DeviceChoice::DefaultOutput
        } else {
            DeviceChoice::Unavailable
        },
    }
}

/// The device found for a configured name (see `spec_lookup`).
pub fn lookup(listed: Option<&Vec<DeviceEntry>>, target: &str, has_default_input: bool) -> (r:
    Option<DeviceChoice>)
    ensures
        r == spec_lookup(opt_models(listed), target@, has_default_input),
{
    let fallback = if has_default_input {
        Some(DeviceChoice::DefaultInput)
    } else {
        None
    };
    match listed {
        Some(entries) => match find_device(entries, target) {
            Some(i) => Some(DeviceChoice::Listed(i)),
            None => fallback,
        },
        None => fallback,
    }
}

/// The name shown for the host's default device: its name, or the empty
/// string when there is no such device or it reports no name.
pub fn name_or_empty(name: Option<String>) -> (s: String)
    ensures
        s@ == match name {
            Some(n) => n@,
            None => Seq::<char>::empty(),
        },
{
    match name {
        Some(n) => n,
        None => String::new(),
    }
}

} // verus!
