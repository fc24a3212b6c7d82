//! Where the engine places inputs and outputs, and what else it reports of a session.
use vstd::prelude::*;

use crate::element::{ElementType, OnnxType};
use crate::error::{fail, Error, Fault, Side};
use crate::memory::MemoryInfo;
use crate::runtime::audit::IoDirection;
use crate::session::session::{CachedIo, Session};
use crate::shape::copy_dims;
use crate::text::CText;

verus! {

/// The device of a provider.
#[derive(Debug, PartialEq, Eq)]
pub struct ExecutionProviderDeviceSnapshot {
    /// The name of the provider.
    pub ep_name: String,
    /// The vendor of the provider.
    pub ep_vendor: String,
}

impl ExecutionProviderDeviceSnapshot {
    /// The same texts.
    pub open spec fn same(self, other: ExecutionProviderDeviceSnapshot) -> bool {
        self.ep_name@ == other.ep_name@ && self.ep_vendor@ == other.ep_vendor@
    }

    fn copy(&self) -> (copy: ExecutionProviderDeviceSnapshot)
        ensures
            copy.same(*self),
    {
        ExecutionProviderDeviceSnapshot {
            ep_name: self.ep_name.as_str().to_owned(),
            ep_vendor: self.ep_vendor.as_str().to_owned(),
        }
    }
}

/// What the engine reports of a device: its texts, which may be missing.
#[derive(Debug)]
pub struct DeviceReport {
    /// The name of the provider.
    pub name: Option<Result<String, Error>>,
    /// The vendor of the provider.
    pub vendor: Option<Result<String, Error>>,
}

/// A text that may be missing, and is then empty.
pub open spec fn is_text_or_empty(
    reply: Option<Result<String, Error>>,
    text: Result<String, Error>,
) -> bool {
    match reply {
        Some(reply) => text == reply,
        None => text matches Ok(text) && text@.len() == 0,
    }
}

fn text_or_empty(reply: Option<Result<String, Error>>) -> (text: Result<String, Error>)
    ensures
        is_text_or_empty(reply, text),
{
    match reply {
        Some(reply) => reply,
        None => Ok(String::new()),
    }
}

/// The device that the engine reports, if there is one.
pub fn ep_device_snapshot(report: Option<DeviceReport>) -> (snapshot: Result<
    Option<ExecutionProviderDeviceSnapshot>,
    Error,
>)
    ensures
        match report {
            None => snapshot == Ok::<Option<ExecutionProviderDeviceSnapshot>, Error>(None),
            Some(report) => match report.name {
                Some(Err(error)) => snapshot == Err::<
                    Option<ExecutionProviderDeviceSnapshot>,
                    Error,
                >(error),
                _ => match report.vendor {
                    Some(Err(error)) => snapshot == Err::<
                        Option<ExecutionProviderDeviceSnapshot>,
                        Error,
                    >(error),
                    _ => {
                        &&& snapshot matches Ok(Some(device))
                        &&& is_text_or_empty(report.name, Ok(device.ep_name))
                        &&& is_text_or_empty(report.vendor, Ok(device.ep_vendor))
                    },
                },
            },
        },
{
    match report {
        None => Ok(None),
        Some(report) => {
            let ep_name = match text_or_empty(report.name) {
                Ok(text) => text,
                Err(error) => return Err(error),
            };
            let ep_vendor = match text_or_empty(report.vendor) {
                Ok(text) => text,
                Err(error) => return Err(error),
            };
            Ok(Some(ExecutionProviderDeviceSnapshot { ep_name, ep_vendor }))
        },
    }
}

/// One input or output, with its static type and where the engine places it.
#[derive(Debug)]
pub struct IoPlacement {
    /// Whether it is an input or an output.
    pub direction: IoDirection,
    /// Its index.
    pub index: usize,
    /// Its name.
    pub name: String,
    /// The kind of value.
    pub onnx_type: OnnxType,
    /// The element type of a tensor.
    pub element_type: ElementType,
    /// The dimensions of a tensor.
    pub shape: Vec<i64>,
    /// The names of the dimensions of a tensor.
    pub symbolic_dims: Vec<Option<String>>,
    /// The memory.
    pub memory_info: MemoryInfo,
    /// The device, if the engine reports one.
    pub ep_device: Option<ExecutionProviderDeviceSnapshot>,
}

/// The same texts, where there are any.
pub open spec fn same_names(one: Seq<Option<String>>, two: Seq<Option<String>>) -> bool {
    &&& one.len() == two.len()
    &&& forall|i: int|
        0 <= i < one.len() ==> match (#[trigger] one[i], two[i]) {
            (Some(one), Some(two)) => one@ == two@,
            (None, None) => true,
            _ => false,
        }
}

fn copy_names(names: &Vec<Option<String>>) -> (copy: Vec<Option<String>>)
    ensures
        same_names(copy@, names@),
{
    let mut copy: Vec<Option<String>> = Vec::new();
    let mut i: usize = 0;
    while i < names.len()
        invariant
            i <= names@.len(),
            copy@.len() == i,
            forall|k: int|
                0 <= k < i ==> match (#[trigger] copy@[k], names@[k]) {
                    (Some(one), Some(two)) => one@ == two@,
                    (None, None) => true,
                    _ => false,
                },
        decreases names@.len() - i,
    {
        match &names[i] {
            Some(name) => copy.push(Some(name.as_str().to_owned())),
            None => copy.push(None),
        }
        i = i + 1;
    }
    copy
}

/// The same device, where there is one.
pub open spec fn same_device(
    one: Option<ExecutionProviderDeviceSnapshot>,
    two: Option<ExecutionProviderDeviceSnapshot>,
) -> bool {
    match (one, two) {
        (Some(one), Some(two)) => one.same(two),
        (None, None) => true,
        _ => false,
    }
}

impl IoPlacement {
    /// This places input or output `i` of one side.
    pub open spec fn places(
        self,
        direction: IoDirection,
        i: int,
        names: Seq<Vec<u8>>,
        meta: Seq<CachedIo>,
        memory: Seq<MemoryInfo>,
        devices: Seq<Option<ExecutionProviderDeviceSnapshot>>,
    ) -> bool {
        &&& self.direction == direction
        &&& self.index == i
        &&& vstd::utf8::encode_utf8(self.name@) == names[i]@
        &&& self.onnx_type == meta[i].onnx_type
        &&& self.element_type == meta[i].elem_type
        &&& self.shape@ == meta[i].dims@
        &&& same_names(self.symbolic_dims@, meta[i].symbolic@)
        &&& self.memory_info == memory[i]
        &&& same_device(self.ep_device, devices[i])
    }
}

/// The first `n` of one side are placed, from `start` on.
pub open spec fn side_placed(
    placed: Seq<IoPlacement>,
    start: int,
    n: int,
    direction: IoDirection,
    names: Seq<Vec<u8>>,
    meta: Seq<CachedIo>,
    memory: Seq<MemoryInfo>,
    devices: Seq<Option<ExecutionProviderDeviceSnapshot>>,
) -> bool {
    forall|i: int|
        0 <= i < n ==> #[trigger] placed_at(
            placed,
            start,
            i,
            direction,
            names,
            meta,
            memory,
            devices,
        )
}

/// Input or output `i` of one side is placed, `i` behind `start`.
pub open spec fn placed_at(
    placed: Seq<IoPlacement>,
    start: int,
    i: int,
    direction: IoDirection,
    names: Seq<Vec<u8>>,
    meta: Seq<CachedIo>,
    memory: Seq<MemoryInfo>,
    devices: Seq<Option<ExecutionProviderDeviceSnapshot>>,
) -> bool {
    placed[start + i].places(direction, i, names, meta, memory, devices)
}

fn place_side(
    session: &Session,
    direction: IoDirection,
    memory: &Vec<MemoryInfo>,
    devices: &Vec<Option<ExecutionProviderDeviceSnapshot>>,
    placed: &mut Vec<IoPlacement>,
) -> (result: Result<(), Error>)
    requires
        session.wf(),
        memory@.len() == session.side(direction).0.len(),
        devices@.len() == session.side(direction).0.len(),
    ensures
        ({
            let (names, meta, side) = session.side(direction);
            match crate::runtime::host_lane::text_names_fault(names, side, names.len() as int) {
                Some(error) => result == Err::<(), Error>(error),
                None => {
                    &&& result is Ok
                    &&& final(placed)@.len() == old(placed)@.len() + names.len()
                    &&& final(placed)@.take(old(placed)@.len() as int) == old(placed)@
                    &&& side_placed(
                        final(placed)@,
                        old(placed)@.len() as int,
                        names.len() as int,
                        direction,
                        names,
                        meta,
                        memory@,
                        devices@,
                    )
                },
            }
        }),
{
    let ghost before = placed@;
    let ghost (names, types, side) = session.side(direction);
    let checked = match direction {
        IoDirection::Input => crate::runtime::host_lane::check_text_names(session, Side::Input),
        IoDirection::Output => crate::runtime::host_lane::check_text_names(session, Side::Output),
    };
    if let Err(error) = checked {
        return Err(error);
    }
    let meta: &Vec<CachedIo> = match direction {
        IoDirection::Input => session.input_metas(),
        IoDirection::Output => session.output_metas(),
    };
    let mut i: usize = 0;
    while i < memory.len()
        invariant
            i <= memory@.len(),
            session.wf(),
            session.side(direction) == (names, types, side),
            meta@ == types,
            memory@.len() == names.len(),
            devices@.len() == names.len(),
            types.len() == names.len(),
            crate::runtime::host_lane::text_names_fault(names, side, names.len() as int) is None,
            placed@.len() == before.len() + i,
            placed@.take(before.len() as int) == before,
            side_placed(
                placed@,
                before.len() as int,
                i as int,
                direction,
                names,
                types,
                memory@,
                devices@,
            ),
        decreases memory@.len() - i,
    {
        let name: Result<&str, Error> = match direction {
            IoDirection::Input => session.input_name(i),
            IoDirection::Output => session.output_name(i),
        };
        let name: String = match name {
            Ok(name) => name.to_owned(),
            Err(error) => {
                proof {
                    lemma_name_fault(names, side, i as int, names.len() as int);
                }
                return Err(error);
            },
        };
        let ep_device = match &devices[i] {
            Some(device) => Some(device.copy()),
            None => None,
        };
        let ghost earlier = placed@;
        placed.push(
            IoPlacement {
                direction,
                index: i,
                name,
                onnx_type: meta[i].onnx_type,
                element_type: meta[i].elem_type,
                shape: copy_dims(meta[i].dims.as_slice()),
                symbolic_dims: copy_names(&meta[i].symbolic),
                memory_info: memory[i].try_clone_descriptor(),
                ep_device,
            },
        );
        i = i + 1;
        proof {
            assert(placed@.take(before.len() as int) =~= before);
            assert forall|k: int| 0 <= k < i implies #[trigger] placed_at(
                placed@,
                before.len() as int,
                k,
                direction,
                names,
                types,
                memory@,
                devices@,
            ) by {
                if k < i - 1 {
                    assert(placed_at(
                        earlier,
                        before.len() as int,
                        k,
                        direction,
                        names,
                        types,
                        memory@,
                        devices@,
                    ));
                    assert(placed@[before.len() + k] == earlier[before.len() + k]);
                }
            }
        }
    }
    Ok(())
}

proof fn lemma_name_fault(names: Seq<Vec<u8>>, side: Side, i: int, n: int)
    requires
        0 <= i < n,
        crate::runtime::host_lane::text_names_fault(names, side, n) is None,
    ensures
        vstd::utf8::valid_utf8(names[i]@),
    decreases n,
{
    if i < n - 1 {
        lemma_name_fault(names, side, i, n - 1);
    }
}

/// What the engine reports of where inputs and outputs are placed.
#[derive(Debug)]
pub struct PlacementReplies {
    /// The memory of each input.
    pub input_memory: Result<Vec<MemoryInfo>, Error>,
    /// The memory of each output.
    pub output_memory: Result<Vec<MemoryInfo>, Error>,
    /// The device of each input.
    pub input_devices: Result<Vec<Option<ExecutionProviderDeviceSnapshot>>, Error>,
    /// The device of each output.
    pub output_devices: Result<Vec<Option<ExecutionProviderDeviceSnapshot>>, Error>,
}

impl PlacementReplies {
    /// The first failure of the engine.
    pub open spec fn fault(self) -> Option<Error> {
        match (self.input_memory, self.output_memory, self.input_devices, self.output_devices) {
            (Err(error), _, _, _) => Some(error),
            (_, Err(error), _, _) => Some(error),
            (_, _, Err(error), _) => Some(error),
            (_, _, _, Err(error)) => Some(error),
            _ => None,
        }
    }

    /// The engine reports as many as the session has.
    pub open spec fn fits(self, session: Session) -> bool {
        &&& self.input_memory matches Ok(memory) ==> memory@.len() == session.inputs().len()
        &&& self.output_memory matches Ok(memory) ==> memory@.len() == session.outputs().len()
        &&& self.input_devices matches Ok(devices) ==> devices@.len() == session.inputs().len()
        &&& self.output_devices matches Ok(devices) ==> devices@.len() == session.outputs().len()
    }
}

impl Session {
    /// The names and static types of one side.
    pub open spec fn side(self, direction: IoDirection) -> (Seq<Vec<u8>>, Seq<CachedIo>, Side) {
        match direction {
            IoDirection::Input => (self.inputs(), self.input_types(), Side::Input),
            IoDirection::Output => (self.outputs(), self.output_types(), Side::Output),
        }
    }

    /// Every input and then every output, with its static type and where the engine places it.
    pub fn io_placement(&self, replies: PlacementReplies) -> (placed: Result<
        Vec<IoPlacement>,
        Error,
    >)
        requires
            self.wf(),
            replies.fits(*self),
        ensures
            match replies.fault() {
                Some(error) => placed == Err::<Vec<IoPlacement>, Error>(error),
                None => match self.names_fault() {
                    Some(error) => placed == Err::<Vec<IoPlacement>, Error>(error),
                    None => {
                        &&& placed matches Ok(placed)
                        &&& placed@.len() == self.inputs().len() + self.outputs().len()
                        &&& side_placed(
                            placed@,
                            0,
                            self.inputs().len() as int,
                            IoDirection::Input,
                            self.inputs(),
                            self.input_types(),
                            replies.input_memory->Ok_0@,
                            replies.input_devices->Ok_0@,
                        )
                        &&& side_placed(
                            placed@,
                            self.inputs().len() as int,
                            self.outputs().len() as int,
                            IoDirection::Output,
                            self.outputs(),
                            self.output_types(),
                            replies.output_memory->Ok_0@,
                            replies.output_devices->Ok_0@,
                        )
                    },
                },
            },
    {
        let input_memory = match replies.input_memory {
            Ok(memory) => memory,
            Err(error) => return Err(error),
        };
        let output_memory = match replies.output_memory {
            Ok(memory) => memory,
            Err(error) => return Err(error),
        };
        let input_devices = match replies.input_devices {
            Ok(devices) => devices,
            Err(error) => return Err(error),
        };
        let output_devices = match replies.output_devices {
            Ok(devices) => devices,
            Err(error) => return Err(error),
        };
        let mut placed: Vec<IoPlacement> = Vec::new();
        match place_side(self, IoDirection::Input, &input_memory, &input_devices, &mut placed) {
            Err(error) => return Err(error),
            Ok(()) => {},
        }
        let ghost inputs = placed@;
        match place_side(self, IoDirection::Output, &output_memory, &output_devices, &mut placed) {
            Err(error) => return Err(error),
            Ok(()) => {},
        }
        proof {
            assert forall|i: int| 0 <= i < self.inputs().len() implies #[trigger] placed_at(
                placed@,
                0,
                i,
                IoDirection::Input,
                self.inputs(),
                self.input_types(),
                input_memory@,
                input_devices@,
            ) by {
                assert(placed_at(
                    inputs,
                    0,
                    i,
                    IoDirection::Input,
                    self.inputs(),
                    self.input_types(),
                    input_memory@,
                    input_devices@,
                ));
                assert(placed@.take(inputs.len() as int)[i] == inputs[i]);
            }
        }
        Ok(placed)
    }

    /// `found` is one of the reports on one side, or why there is none.
    pub open spec fn report_at<R>(
        found: Result<R, Error>,
        i: usize,
        side: Side,
        count: nat,
        reports: Result<Vec<R>, Error>,
    ) -> bool {
        if i >= count {
            found == Err::<R, Error>(
                Error::SessionIndexOutOfRange { side, index: i, count: count as usize },
            )
        } else {
            match reports {
                Ok(reports) => found == Ok::<R, Error>(reports@[i as int]),
                Err(error) => found == Err::<R, Error>(error),
            }
        }
    }

    fn find_report<R>(i: usize, side: Side, count: usize, reports: Result<Vec<R>, Error>) -> (found:
        Result<R, Error>)
        requires
            reports matches Ok(reports) ==> reports@.len() == count,
        ensures
            Session::report_at(found, i, side, count as nat, reports),
    {
        if i >= count {
            return Err(Error::SessionIndexOutOfRange { side, index: i, count });
        }
        match reports {
            Ok(reports) => {
                let mut reports = reports;
                Ok(reports.remove(i))
            },
            Err(error) => Err(error),
        }
    }

    /// The memory of an input.
    pub fn input_memory_info(&self, i: usize, memory: Result<Vec<MemoryInfo>, Error>) -> (info: Result<
        MemoryInfo,
        Error,
    >)
        requires
            memory matches Ok(memory) ==> memory@.len() == self.inputs().len(),
        ensures
            Session::report_at(info, i, Side::Input, self.inputs().len(), memory),
    {
        Session::find_report(i, Side::Input, self.input_count(), memory)
    }

    /// The memory of an output.
    pub fn output_memory_info(&self, i: usize, memory: Result<Vec<MemoryInfo>, Error>) -> (info:
        Result<MemoryInfo, Error>)
        requires
            memory matches Ok(memory) ==> memory@.len() == self.outputs().len(),
        ensures
            Session::report_at(info, i, Side::Output, self.outputs().len(), memory),
    {
        Session::find_report(i, Side::Output, self.output_count(), memory)
    }

    /// The device of an input, if the engine reports one.
    pub fn input_ep_device(
        &self,
        i: usize,
        devices: Result<Vec<Option<ExecutionProviderDeviceSnapshot>>, Error>,
    ) -> (device: Result<Option<ExecutionProviderDeviceSnapshot>, Error>)
        requires
            devices matches Ok(devices) ==> devices@.len() == self.inputs().len(),
        ensures
            Session::report_at(device, i, Side::Input, self.inputs().len(), devices),
    {
        Session::find_report(i, Side::Input, self.input_count(), devices)
    }

    /// The device of an output, if the engine reports one.
    pub fn output_ep_device(
        &self,
        i: usize,
        devices: Result<Vec<Option<ExecutionProviderDeviceSnapshot>>, Error>,
    ) -> (device: Result<Option<ExecutionProviderDeviceSnapshot>, Error>)
        requires
            devices matches Ok(devices) ==> devices@.len() == self.outputs().len(),
        ensures
            Session::report_at(device, i, Side::Output, self.outputs().len(), devices),
    {
        Session::find_report(i, Side::Output, self.output_count(), devices)
    }

    /// The path of the profile: what the engine gives, where it may be null, and what came of
    /// freeing it.
    pub fn end_profiling(
        &self,
        path: Result<Option<Result<String, Error>>, Error>,
        freed: Result<(), Error>,
    ) -> (result: Result<String, Error>)
        ensures
            match path {
                Err(error) => result == Err::<String, Error>(error),
                Ok(None) => result == Err::<String, Error>(Error::Fault(Fault::ProfilePathNull)),
                Ok(Some(Err(error))) => result == Err::<String, Error>(error),
                Ok(Some(Ok(path))) => match freed {
                    Ok(()) => result == Ok::<String, Error>(path),
                    Err(error) => result == Err::<String, Error>(error),
                },
            },
    {
        match path {
            Err(error) => Err(error),
            Ok(None) => fail(Fault::ProfilePathNull),
            Ok(Some(path)) => match (path, freed) {
                (Ok(path), Ok(())) => Ok(path),
                (Err(error), _) => Err(error),
                (_, Err(error)) => Err(error),
            },
        }
    }

    /// The name of an initializer that can be replaced: what the engine gives, where it may be null.
    pub fn overridable_initializer_name(&self, name: Result<Option<String>, Error>) -> (result:
        Result<String, Error>)
        ensures
            match name {
                Err(error) => result == Err::<String, Error>(error),
                Ok(None) => result == Err::<String, Error>(
                    Error::Fault(Fault::InitializerNameNull),
                ),
                Ok(Some(name)) => result == Ok::<String, Error>(name),
            },
    {
        match name {
            Err(error) => Err(error),
            Ok(None) => fail(Fault::InitializerNameNull),
            Ok(Some(name)) => Ok(name),
        }
    }

    /// The options that are handed to the providers of a session that is in use: no key and no value
    /// may hold a NUL byte.
    pub fn set_ep_dynamic_options(&self, options: &[(&str, &str)]) -> (texts: Result<
        (Vec<CText>, Vec<CText>),
        Error,
    >)
        ensures
            if exists|i: int| 0 <= i < options@.len() && #[trigger] key_has_nul(options@[i]) {
                texts == Err::<(Vec<CText>, Vec<CText>), Error>(Error::Fault(Fault::DynamicKeyNul))
            } else if exists|i: int|
                0 <= i < options@.len() && #[trigger] value_has_nul(options@[i]) {
                texts == Err::<(Vec<CText>, Vec<CText>), Error>(
                    Error::Fault(Fault::DynamicValueNul),
                )
            } else {
                &&& texts matches Ok((keys, values))
                &&& keys@.len() == options@.len()
                &&& values@.len() == options@.len()
                &&& forall|i: int|
                    0 <= i < options@.len() ==> (#[trigger] keys@[i])@ == options@[i].0@
                &&& forall|i: int|
                    0 <= i < options@.len() ==> (#[trigger] values@[i])@ == options@[i].1@
            },
    {
        let mut keys: Vec<CText> = Vec::new();
        let mut i: usize = 0;
        while i < options.len()
            invariant
                i <= options@.len(),
                keys@.len() == i,
                forall|k: int| 0 <= k < i ==> !#[trigger] key_has_nul(options@[k]),
                forall|k: int| 0 <= k < i ==> (#[trigger] keys@[k])@ == options@[k].0@,
            decreases options@.len() - i,
        {
            match CText::new(options[i].0) {
                Ok(key) => keys.push(key),
                Err(_) => {
                    assert(key_has_nul(options@[i as int]));
                    return fail(Fault::DynamicKeyNul);
                },
            }
            i = i + 1;
        }
        let mut values: Vec<CText> = Vec::new();
        let mut j: usize = 0;
        while j < options.len()
            invariant
                j <= options@.len(),
                values@.len() == j,
                forall|k: int| 0 <= k < options@.len() ==> !#[trigger] key_has_nul(options@[k]),
                forall|k: int| 0 <= k < j ==> !#[trigger] value_has_nul(options@[k]),
                forall|k: int| 0 <= k < j ==> (#[trigger] values@[k])@ == options@[k].1@,
            decreases options@.len() - j,
        {
            match CText::new(options[j].1) {
                Ok(value) => values.push(value),
                Err(_) => {
                    assert(value_has_nul(options@[j as int]));
                    return fail(Fault::DynamicValueNul);
                },
            }
            j = j + 1;
        }
        Ok((keys, values))
    }
}

/// The key of an option holds a NUL byte.
pub open spec fn key_has_nul(option: (&str, &str)) -> bool {
    crate::text::has_nul(option.0@)
}

/// The value of an option holds a NUL byte.
pub open spec fn value_has_nul(option: (&str, &str)) -> bool {
    crate::text::has_nul(option.1@)
}

/// The counters of an allocator, in the order in which the engine reports them.
#[derive(Debug, PartialEq, Eq)]
pub struct AllocatorStats {
    /// The counters.
    pub counters: Vec<i64>,
}

/// What the counters of an allocator were before and after a run.
#[derive(Debug, PartialEq, Eq)]
pub struct LaneRunAllocatorStats {
    /// Before.
    pub before: AllocatorStats,
    /// After.
    pub after: AllocatorStats,
}

impl LaneRunAllocatorStats {
    /// By how much each counter that was reported both times has grown.
    pub fn delta(&self) -> (delta: Vec<i128>)
        ensures
            delta@.len() == if self.before.counters@.len() <= self.after.counters@.len() {
                self.before.counters@.len()
            } else {
                self.after.counters@.len()
            },
            forall|i: int|
                0 <= i < delta@.len() ==> #[trigger] delta@[i] == self.after.counters@[i]
                    - self.before.counters@[i],
    {
        let mut delta: Vec<i128> = Vec::new();
        let mut i: usize = 0;
        while i < self.before.counters.len() && i < self.after.counters.len()
            invariant
                i <= self.before.counters@.len(),
                i <= self.after.counters@.len(),
                delta@.len() == i,
                forall|k: int|
                    0 <= k < i ==> #[trigger] delta@[k] == self.after.counters@[k]
                        - self.before.counters@[k],
            decreases self.before.counters@.len() - i,
        {
            delta.push(self.after.counters[i] as i128 - self.before.counters[i] as i128);
            i = i + 1;
        }
        delta
    }
}

/// What the counters of an allocator were around a run, where all went well: the run is not made
/// where the first report fails, and the second is not asked for where the run fails.
pub fn run_with_allocator_stats(
    before: Result<AllocatorStats, Error>,
    run: Result<(), Error>,
    after: Result<AllocatorStats, Error>,
) -> (stats: Result<LaneRunAllocatorStats, Error>)
    ensures
        match (before, run, after) {
            (Err(error), _, _) => stats == Err::<LaneRunAllocatorStats, Error>(error),
            (_, Err(error), _) => stats == Err::<LaneRunAllocatorStats, Error>(error),
            (_, _, Err(error)) => stats == Err::<LaneRunAllocatorStats, Error>(error),
            (Ok(before), Ok(()), Ok(after)) => stats == Ok::<LaneRunAllocatorStats, Error>(
                LaneRunAllocatorStats { before, after },
            ),
        },
{
    let before = match before {
        Ok(before) => before,
        Err(error) => return Err(error),
    };
    match run {
        Ok(()) => {},
        Err(error) => return Err(error),
    }
    match after {
        Ok(after) => Ok(LaneRunAllocatorStats { before, after }),
        Err(error) => Err(error),
    }
}

} // verus!
