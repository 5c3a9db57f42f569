//! The file protocol: handles, their life cycle, and the information
//! records that are queried and updated through them.
//!
//! A handle stands for a firmware-owned file. The library decides what is
//! asked of firmware and what its answer means; the caller carries the
//! question over and brings the answer back as plain values.

use crate::guid::{
    file_info_id, file_info_tag, system_info_id, system_info_tag, system_volume_label_id,
    system_volume_label_tag, Guid, GuidFields,
};
use crate::protocols::logger::{str_to_utf16, wide_string};
use crate::status::Status;
use vstd::prelude::*;

verus! {

/// The largest information record that a query accepts, in bytes.
pub const MAX_INFO_SIZE: usize = 1024;

/// The largest information record that an update accepts, in bytes.
pub const MAX_SET_INFO_SIZE: usize = 512;

/// How a file is opened.
#[derive(Clone, Copy, Debug, PartialEq, Eq)]
pub enum OpenMode {
    Read,
    Write,
    Create,
}

impl OpenMode {
    /// The flag that firmware knows this mode by.
    pub open spec fn spec_bits(self) -> u64 {
        match self {
            OpenMode::Read => 0x0000000000000001,
            OpenMode::Write => 0x0000000000000002,
            OpenMode::Create => 0x8000000000000000,
        }
    }

    pub fn bits(&self) -> (bits: u64)
        ensures
            bits == self.spec_bits(),
    {
        match self {
            OpenMode::Read => 0x0000000000000001,
            OpenMode::Write => 0x0000000000000002,
            OpenMode::Create => 0x8000000000000000,
        }
    }
}

/// An attribute of a file, or the mask of all valid attributes.
#[derive(Clone, Copy, Debug, PartialEq, Eq)]
pub enum Attribute {
    ReadOnly,
    Hidden,
    System,
    Reserved,
    Directory,
    Archive,
    ValidAttr,
}

impl Attribute {
    /// The flag that firmware knows this attribute by.
    pub open spec fn spec_bits(self) -> u64 {
        match self {
            Attribute::ReadOnly => 0x0000000000000001,
            Attribute::Hidden => 0x0000000000000002,
            Attribute::System => 0x0000000000000004,
            Attribute::Reserved => 0x0000000000000008,
            Attribute::Directory => 0x0000000000000010,
            Attribute::Archive => 0x0000000000000020,
            Attribute::ValidAttr => 0x0000000000000037,
        }
    }

    pub fn bits(&self) -> (bits: u64)
        ensures
            bits == self.spec_bits(),
    {
        match self {
            Attribute::ReadOnly => 0x0000000000000001,
            Attribute::Hidden => 0x0000000000000002,
            Attribute::System => 0x0000000000000004,
            Attribute::Reserved => 0x0000000000000008,
            Attribute::Directory => 0x0000000000000010,
            Attribute::Archive => 0x0000000000000020,
            Attribute::ValidAttr => 0x0000000000000037,
        }
    }
}

/// A kind of information record, known to firmware by its tag.
pub trait InfoType {
    /// The tag of this kind.
    spec fn tag() -> GuidFields;

    fn guid() -> (guid: Guid)
        ensures
            guid@ == Self::tag(),
    ;
}

/// Information about a file.
pub struct Info;

/// Information about a volume.
pub struct SystemInfo;

/// The label of a volume.
pub struct SystemVolumeLabel;

impl InfoType for Info {
    open spec fn tag() -> GuidFields {
        file_info_tag()
    }

    fn guid() -> (guid: Guid) {
        file_info_id()
    }
}

impl InfoType for SystemInfo {
    open spec fn tag() -> GuidFields {
        system_info_tag()
    }

    fn guid() -> (guid: Guid) {
        system_info_id()
    }
}

impl InfoType for SystemVolumeLabel {
    open spec fn tag() -> GuidFields {
        system_volume_label_tag()
    }

    fn guid() -> (guid: Guid) {
        system_volume_label_id()
    }
}

/// What firmware is handed to open a file.
#[derive(Debug, PartialEq, Eq)]
pub struct OpenRequest {
    /// The path, as a zero-terminated wide string.
    pub file_name: Vec<u16>,
    pub open_mode: u64,
    pub attributes: u64,
}

/// What firmware is handed to read from a file: the room for the bytes, and
/// its size.
#[derive(Debug, PartialEq, Eq)]
pub struct ReadRequest {
    pub buffer: Vec<u8>,
    pub buffer_size: usize,
}

/// What firmware is handed to update an information record.
#[derive(Debug, PartialEq, Eq)]
pub struct SetInfoRequest {
    pub tag: Guid,
    pub data: Vec<u8>,
}

/// What happened last in an information query.
#[derive(Debug, PartialEq, Eq)]
pub enum InfoEvent {
    /// Nothing yet: the query starts.
    Begin,
    /// Firmware answered the probe with a status and the size it reports.
    Probed { status: Status, size: usize },
    /// Firmware answered the fetch with a status and the bytes it wrote.
    Fetched { status: Status, data: Vec<u8> },
}

/// What an information query does next.
#[derive(Debug, PartialEq, Eq)]
pub enum InfoStep {
    /// Ask firmware for the record with this tag, offering `capacity` bytes.
    /// The answer to a probe comes back as `Probed`, any other as `Fetched`.
    Query { tag: Guid, capacity: usize, probe: bool },
    /// The query is over, with the record or with the status that ended it.
    Done(Result<Vec<u8>, Status>),
}

/// The mathematical value of an `InfoStep`.
pub enum InfoStepView {
    Query { tag: GuidFields, capacity: usize, probe: bool },
    Done(Result<Seq<u8>, Status>),
}

impl View for InfoStep {
    type V = InfoStepView;

    open spec fn view(&self) -> InfoStepView {
        match *self {
            InfoStep::Query { tag, capacity, probe } => InfoStepView::Query {
                tag: tag@,
                capacity,
                probe,
            },
            InfoStep::Done(Ok(data)) => InfoStepView::Done(Ok(data@)),
            InfoStep::Done(Err(status)) => InfoStepView::Done(Err(status)),
        }
    }
}

/// How many bytes of a buffer count as delivered: as many as firmware
/// reported, but no more than the room it was offered, nor than the buffer
/// holds.
pub open spec fn delivered_len(held: nat, reported: usize, room: usize) -> int {
    let offered = if room as int <= held { room as int } else { held as int };
    if reported as int <= offered { reported as int } else { offered }
}

/// The bytes that firmware delivered into a buffer: its first
/// `delivered_len` bytes.
pub open spec fn delivered(buffer: Seq<u8>, reported: usize, room: usize) -> Seq<u8> {
    buffer.subrange(0, delivered_len(buffer.len(), reported, room))
}

/// What firmware answered to one information request: its status, the size
/// it reported, and the bytes it delivered into the room it was offered.
#[derive(Debug, PartialEq, Eq)]
pub struct InfoReply {
    pub status: Status,
    pub size: usize,
    pub data: Vec<u8>,
}

/// How a probe ends a query, if it does: with its own status when that is
/// neither success nor "buffer too small", with "buffer too small" when the
/// size it reported is above `MAX_INFO_SIZE`. `None` means a fetch follows.
pub open spec fn probe_verdict(status: Status, size: usize) -> Option<Status> {
    if !status.spec_is_success() && status != Status::spec_buffer_too_small() {
        Some(status)
    } else if size > MAX_INFO_SIZE {
        Some(Status::spec_buffer_too_small())
    } else {
        None
    }
}

/// The mathematical value of a query's result.
pub open spec fn record_view(result: Result<Vec<u8>, Status>) -> Result<Seq<u8>, Status> {
    match result {
        Ok(data) => Ok(data@),
        Err(status) => Err(status),
    }
}

/// The two-phase information query, one step at a time.
///
/// A query starts with a probe that offers no room. An answer to the probe
/// other than success or "buffer too small" ends the query with that answer.
/// A reported size above `MAX_INFO_SIZE` ends it with "buffer too small" and
/// nothing more is asked of firmware. Otherwise the record is fetched with
/// exactly the reported room, and the answer to the fetch ends the query.
pub open spec fn next_info_step(tag: GuidFields, event: InfoEvent) -> InfoStepView {
    match event {
        InfoEvent::Begin => InfoStepView::Query { tag, capacity: 0, probe: true },
        InfoEvent::Probed { status, size } => match probe_verdict(status, size) {
            Some(ending) => InfoStepView::Done(Err(ending)),
            None => InfoStepView::Query { tag, capacity: size, probe: false },
        },
        InfoEvent::Fetched { status, data } => InfoStepView::Done(
            Status::outcome(status, data@),
        ),
    }
}

/// What an update of an information record hands to firmware: nothing, and
/// "buffer too small", for a record above `MAX_SET_INFO_SIZE`; the tag and
/// the whole record otherwise.
pub open spec fn set_info_request(tag: GuidFields, data: Seq<u8>) -> Result<
    (GuidFields, Seq<u8>),
    Status,
> {
    if data.len() > MAX_SET_INFO_SIZE {
        Err(Status::spec_buffer_too_small())
    } else {
        Ok((tag, data))
    }
}

/// Cuts a buffer down to the bytes that firmware delivered into it.
fn leading(buffer: Vec<u8>, reported: usize, room: usize) -> (bytes: Vec<u8>)
    ensures
        bytes@ == delivered(buffer@, reported, room),
{
    let mut bytes = buffer;
    let offered: usize = if room <= bytes.len() { room } else { bytes.len() };
    let count: usize = if reported <= offered { reported } else { offered };
    bytes.truncate(count);
    bytes
}

/// A handle to a firmware-owned file or directory.
///
/// The handle is a borrowed address, the revision that the structure at
/// that address declares, and the knowledge whether the handle was released.
/// It is usable from its creation until it is closed or deleted.
#[derive(Debug, PartialEq, Eq)]
pub struct File {
    root: usize,
    revision: u64,
    released: bool,
}

impl File {
    /// The address of the firmware structure behind this handle.
    pub closed spec fn address(&self) -> usize {
        self.root
    }

    /// The revision that the firmware structure declares.
    pub closed spec fn declared_revision(&self) -> u64 {
        self.revision
    }

    /// Whether the handle may still be used.
    pub closed spec fn is_open(&self) -> bool {
        !self.released
    }

    /// A usable handle on the firmware structure at `root`, which declares
    /// `revision`.
    pub fn new(root: usize, revision: u64) -> (file: File)
        ensures
            file.address() == root,
            file.declared_revision() == revision,
            file.is_open(),
    {
        File { root, revision, released: false }
    }

    /// The revision of the file protocol that the handle speaks.
    pub fn revision(&self) -> (value: u64)
        ensures
            value == self.declared_revision(),
    {
        self.revision
    }

    pub fn root(&self) -> (root: usize)
        ensures
            root == self.address(),
    {
        self.root
    }

    pub fn usable(&self) -> (yes: bool)
        ensures
            yes == self.is_open(),
    {
        !self.released
    }

    /// What to hand to firmware to open `str_file_name` relative to this
    /// handle: the name as a wide string, and the flags of mode and
    /// attribute.
    pub fn open_request(
        &self,
        str_file_name: &str,
        open_mode: OpenMode,
        attributes: Attribute,
    ) -> (request: OpenRequest)
        requires
            self.is_open(),
        ensures
            request.file_name@ == wide_string(str_file_name@),
            str_file_name@.len() < request.file_name@.len() <= 2 * str_file_name@.len() + 1,
            request.open_mode == open_mode.spec_bits(),
            request.attributes == attributes.spec_bits(),
    {
        OpenRequest {
            file_name: str_to_utf16(str_file_name),
            open_mode: open_mode.bits(),
            attributes: attributes.bits(),
        }
    }

    /// The result of an open: a usable handle at `new_handle`, which
    /// declares `revision`, if firmware reported success, and its status,
    /// and no handle, otherwise.
    pub fn open(&self, status: Status, new_handle: usize, revision: u64) -> (result: Result<
        File,
        Status,
    >)
        requires
            self.is_open(),
        ensures
            status.spec_is_success() ==> (result matches Ok(file) && file.address() == new_handle
                && file.declared_revision() == revision && file.is_open()),
            !status.spec_is_success() ==> result == Err::<File, Status>(status),
    {
        if status.is_success() {
            Ok(File::new(new_handle, revision))
        } else {
            Err(status)
        }
    }

    /// Records that firmware closed the handle. Whatever the flush came to,
    /// the handle is released; the status is passed on.
    pub fn close(&mut self, status: Status) -> (reported: Status)
        requires
            old(self).is_open(),
        ensures
            !final(self).is_open(),
            final(self).address() == old(self).address(),
            final(self).declared_revision() == old(self).declared_revision(),
            reported == status,
    {
        self.released = true;
        status
    }

    /// Records that firmware closed the handle and tried to delete the file.
    /// Whether the file went or stayed, the handle is released; the status,
    /// a warning if the file stayed, is passed on.
    pub fn delete(&mut self, status: Status) -> (reported: Status)
        requires
            old(self).is_open(),
        ensures
            !final(self).is_open(),
            final(self).address() == old(self).address(),
            final(self).declared_revision() == old(self).declared_revision(),
            reported == status,
    {
        self.released = true;
        status
    }

    /// What to hand to firmware to read up to `size` bytes: a buffer of
    /// exactly `size` bytes, all zero, and `size` as its size.
    pub fn read_request(&self, size: usize) -> (request: ReadRequest)
        requires
            self.is_open(),
        ensures
            request.buffer_size == size,
            request.buffer@ == Seq::new(size as nat, |i: int| 0u8),
    {
        let buffer: Vec<u8> = vec![0u8; size];
        assert(buffer@ =~= Seq::new(size as nat, |i: int| 0u8));
        ReadRequest { buffer, buffer_size: size }
    }

    /// The result of a read of up to `size` bytes, to which firmware
    /// answered `status` and reported `reported` bytes in `buffer`. On
    /// success it is the start of the buffer, as long as reported and never
    /// longer than `size`; on anything else it is firmware's status. The
    /// handle is as it was.
    pub fn read(
        &self,
        size: usize,
        status: Status,
        reported: usize,
        buffer: Vec<u8>,
    ) -> (result: Result<Vec<u8>, Status>)
        requires
            self.is_open(),
        ensures
            record_view(result) == Status::outcome(status, delivered(buffer@, reported, size)),
            result matches Ok(bytes) ==> bytes@.len() <= size && bytes@.len() <= reported,
    {
        status.into_result(leading(buffer, reported, size))
    }

    /// The result of a write: the number of bytes firmware took on success,
    /// its status otherwise.
    pub fn write(&self, status: Status, written: usize) -> (result: Result<usize, Status>)
        requires
            self.is_open(),
        ensures
            result == Status::outcome(status, written),
    {
        status.into_result(written)
    }

    /// The position firmware reported on success, its status otherwise.
    pub fn get_position(&self, status: Status, position: u64) -> (result: Result<u64, Status>)
        requires
            self.is_open(),
        ensures
            result == Status::outcome(status, position),
    {
        status.into_result(position)
    }

    /// The status of a repositioning, as firmware reported it.
    pub fn set_position(&self, status: Status) -> (reported: Status)
        requires
            self.is_open(),
        ensures
            reported == status,
    {
        status
    }

    /// The answer to one raw information request that offered `capacity`
    /// bytes in `buffer`: firmware's status and the size it reported,
    /// whatever the status, and the bytes it delivered. A probe that is
    /// answered "buffer too small" thus still tells the size that is needed.
    pub fn _get_info(
        &self,
        status: Status,
        size: usize,
        capacity: usize,
        buffer: Vec<u8>,
    ) -> (reply: InfoReply)
        requires
            self.is_open(),
        ensures
            reply.status == status,
            reply.size == size,
            reply.data@ == delivered(buffer@, size, capacity),
    {
        InfoReply { status, size, data: leading(buffer, size, capacity) }
    }

    /// One step of the query for the record of kind `T`: what to do after
    /// `event`.
    pub fn get_info<T: InfoType>(&self, event: InfoEvent) -> (step: InfoStep)
        requires
            self.is_open(),
        ensures
            step@ == next_info_step(T::tag(), event),
    {
        match event {
            InfoEvent::Begin => InfoStep::Query { tag: T::guid(), capacity: 0, probe: true },
            InfoEvent::Probed { status, size } => {
                let too_small = Status::buffer_too_small();
                if !status.is_success() && status != too_small {
                    InfoStep::Done(Err(status))
                } else if size > MAX_INFO_SIZE {
                    InfoStep::Done(Err(too_small))
                } else {
                    InfoStep::Query { tag: T::guid(), capacity: size, probe: false }
                }
            },
            InfoEvent::Fetched { status, data } => {
                if status.is_success() {
                    InfoStep::Done(Ok(data))
                } else {
                    InfoStep::Done(Err(status))
                }
            },
        }
    }

    /// The whole query for the record of kind `T`, with `firmware` standing
    /// for the call that carries one request over: it is given the tag, the
    /// room offered and whether this is the probe, and gives back its
    /// status, the size it reported and the buffer it was offered.
    ///
    /// Firmware is asked once, with no room, for the probe. If the probe
    /// ends the query, its verdict is the result and firmware is not asked
    /// again. Otherwise firmware is asked a second time, with the room the
    /// probe reported, and the result is the bytes it delivered on success
    /// and its status on anything else.
    pub fn get_info_with<T: InfoType, F: Fn(Guid, usize, bool) -> (Status, usize, Vec<u8>)>(
        &self,
        firmware: F,
    ) -> (result: Result<Vec<u8>, Status>)
        requires
            self.is_open(),
            forall|tag: Guid, capacity: usize, probe: bool|
                call_requires(firmware, (tag, capacity, probe)),
        ensures
            exists|tag: Guid, probed: (Status, usize, Vec<u8>)|
                tag@ == T::tag() && #[trigger] call_ensures(firmware, (tag, 0usize, true), probed)
                    && match probe_verdict(probed.0, probed.1) {
                    Some(ending) => record_view(result) == Err::<Seq<u8>, Status>(ending),
                    None => exists|again: Guid, fetched: (Status, usize, Vec<u8>)|
                        again@ == T::tag() && #[trigger] call_ensures(
                            firmware,
                            (again, probed.1, false),
                            fetched,
                        ) && record_view(result) == Status::outcome(
                            fetched.0,
                            delivered(fetched.2@, fetched.1, probed.1),
                        ),
                },
    {
        let tag = T::guid();
        let (status, size, buffer) = firmware(tag, 0, true);
        let probed = self._get_info(status, size, 0, buffer);
        match self.get_info::<T>(InfoEvent::Probed { status: probed.status, size: probed.size }) {
            InfoStep::Done(result) => {
                assert(probe_verdict(status, size) is Some);
                result
            },
            InfoStep::Query { tag: again, capacity, probe } => {
                assert(probe_verdict(status, size) is None);
                let (answer, reported, room) = firmware(again, capacity, probe);
                let fetched = self._get_info(answer, reported, capacity, room);
                let ghost record = fetched.data@;
                let result = fetched.status.into_result(fetched.data);
                assert(record_view(result) == Status::outcome(answer, record));
                result
            },
        }
    }

    /// The status of one raw information update, as firmware reported it.
    pub fn _set_info(&self, status: Status) -> (reported: Status)
        requires
            self.is_open(),
        ensures
            reported == status,
    {
        status
    }

    /// Prepares the update of the record of kind `T`. A record above
    /// `MAX_SET_INFO_SIZE` is refused here with "buffer too small" and never
    /// reaches firmware; any other is handed over whole, under the tag of
    /// its kind.
    pub fn set_info<T: InfoType>(&self, value: Vec<u8>) -> (result: Result<
        SetInfoRequest,
        Status,
    >)
        requires
            self.is_open(),
        ensures
            match set_info_request(T::tag(), value@) {
                Ok((tag, data)) => result matches Ok(request) && request.tag@ == tag
                    && request.data@ == data,
                Err(status) => result == Err::<SetInfoRequest, Status>(status),
            },
    {
        if value.len() > MAX_SET_INFO_SIZE {
            Err(Status::buffer_too_small())
        } else {
            Ok(SetInfoRequest { tag: T::guid(), data: value })
        }
    }

    /// The whole update of the record of kind `T`, with `firmware` standing
    /// for the call that carries the request over: it is given the tag and
    /// the record. A record above `MAX_SET_INFO_SIZE` is answered with
    /// "buffer too small" and firmware is not asked; for any other the
    /// result is what firmware answered.
    pub fn set_info_with<T: InfoType, F: Fn(Guid, Vec<u8>) -> Status>(
        &self,
        value: Vec<u8>,
        firmware: F,
    ) -> (reported: Status)
        requires
            self.is_open(),
            forall|tag: Guid, data: Vec<u8>| call_requires(firmware, (tag, data)),
        ensures
            match set_info_request(T::tag(), value@) {
                Ok((asked, bytes)) => exists|tag: Guid, data: Vec<u8>|
                    tag@ == asked && data@ == bytes && #[trigger] call_ensures(
                        firmware,
                        (tag, data),
                        reported,
                    ),
                Err(status) => reported == status,
            },
    {
        match self.set_info::<T>(value) {
            Ok(request) => {
                let answer = firmware(request.tag, request.data);
                self._set_info(answer)
            },
            Err(status) => status,
        }
    }

    /// The status of a flush, as firmware reported it.
    pub fn flush(&self, status: Status) -> (reported: Status)
        requires
            self.is_open(),
        ensures
            reported == status,
    {
        status
    }

    /// The result of an open with a completion token: a usable handle at
    /// `new_handle`, which declares `revision`, and the same token if
    /// firmware reported success, its status otherwise.
    pub fn open_ex(&self, status: Status, new_handle: usize, revision: u64, token: usize) -> (result:
        Result<(File, usize), Status>)
        requires
            self.is_open(),
        ensures
            status.spec_is_success() ==> (result matches Ok(pair) && pair.0.address()
                == new_handle && pair.0.declared_revision() == revision && pair.0.is_open()
                && pair.1 == token),
            !status.spec_is_success() ==> result == Err::<(File, usize), Status>(status),
    {
        if status.is_success() {
            Ok((File::new(new_handle, revision), token))
        } else {
            Err(status)
        }
    }

    /// The result of a read with a completion token: the same token on
    /// success, firmware's status otherwise.
    pub fn read_ex(&self, status: Status, token: usize) -> (result: Result<usize, Status>)
        requires
            self.is_open(),
        ensures
            result == Status::outcome(status, token),
    {
        status.into_result(token)
    }

    /// The result of a write with a completion token: the same token on
    /// success, firmware's status otherwise.
    pub fn write_ex(&self, status: Status, token: usize) -> (result: Result<usize, Status>)
        requires
            self.is_open(),
        ensures
            result == Status::outcome(status, token),
    {
        status.into_result(token)
    }

    /// The result of a flush with a completion token: the same token on
    /// success, firmware's status otherwise.
    pub fn flush_ex(&self, status: Status, token: usize) -> (result: Result<usize, Status>)
        requires
            self.is_open(),
        ensures
            result == Status::outcome(status, token),
    {
        status.into_result(token)
    }
}

/// A probe that reports a record larger than `MAX_INFO_SIZE` ends the query
/// with "buffer too small": the step that follows it asks nothing of
/// firmware, whatever the kind of record.
pub proof fn lemma_oversized_probe_ends_query(tag: GuidFields, status: Status, size: usize)
    requires
        status.spec_is_success() || status == Status::spec_buffer_too_small(),
        size > MAX_INFO_SIZE,
    ensures
        next_info_step(tag, InfoEvent::Probed { status, size }) == InfoStepView::Done(
            Err(Status::spec_buffer_too_small()),
        ),
        !(next_info_step(tag, InfoEvent::Probed { status, size }) is Query),
{
}

/// A query asks firmware at most twice: the step after `Begin` is the
/// probe, the step after a probe is a fetch or the end, and the step after a
/// fetch is the end.
pub proof fn lemma_query_has_two_phases(tag: GuidFields, event: InfoEvent)
    ensures
        event is Begin ==> next_info_step(tag, event) == (InfoStepView::Query {
            tag,
            capacity: 0,
            probe: true,
        }),
        event is Probed ==> (match next_info_step(tag, event) {
            InfoStepView::Query { tag: asked, capacity, probe } => asked == tag && !probe
                && capacity <= MAX_INFO_SIZE && capacity == event->Probed_size,
            InfoStepView::Done(outcome) => outcome is Err,
        }),
        event is Fetched ==> next_info_step(tag, event) is Done,
{
}

/// A record that a query delivered, handed back unchanged to an update of
/// the same kind, reaches firmware byte for byte under the same tag,
/// provided it is no larger than `MAX_SET_INFO_SIZE`.
pub proof fn lemma_info_round_trip(tag: GuidFields, data: Vec<u8>)
    requires
        data@.len() <= MAX_SET_INFO_SIZE,
    ensures
        next_info_step(tag, InfoEvent::Fetched { status: Status::spec_success(), data })
            == InfoStepView::Done(Ok(data@)),
        set_info_request(tag, data@) == Ok::<(GuidFields, Seq<u8>), Status>((tag, data@)),
{
}

} // verus!
