//! One GPIO pin resource.
//!
//! The resource holds the pin's device path, the descriptor that the native
//! driver gave it, the value staged for the next write and the value of the
//! last read. The driver's routines (open, close, write, read) run outside
//! this library: each is handed the resource's record, and what it reports
//! back (its status code, and the record as it left it) is passed to the
//! method of the same name. The resource then holds whatever the routine left,
//! and the status becomes a result: 0 is success, any other status is handed
//! on unchanged.

use crate::mapping::{resolve, resolved};
use vstd::prelude::*;

verus! {

/// What a driver routine is handed: descriptor, staged value, last read value.
#[derive(Clone, Copy, Debug, PartialEq, Eq, Structural)]
pub struct DriverRecord {
    pub fd: u32,
    pub write_value: u32,
    pub read_value: u32,
}

/// The state of a resource.
pub struct GpioView {
    pub fd: u32,
    pub write_value: u32,
    pub read_value: u32,
    pub device_path: Seq<char>,
}

impl GpioView {
    /// A resource just made for `device_path`: every slot 0.
    pub open spec fn fresh(device_path: Seq<char>) -> GpioView {
        GpioView { fd: 0, write_value: 0, read_value: 0, device_path }
    }

    /// This state with the slots as a driver routine left them in `left`.
    pub open spec fn with_record(self, left: DriverRecord) -> GpioView {
        GpioView { fd: left.fd, write_value: left.write_value, read_value: left.read_value, ..self }
    }

    /// This state with `value` staged for writing.
    pub open spec fn staged(self, value: u32) -> GpioView {
        GpioView { write_value: value, ..self }
    }

    /// The record that a driver routine is handed in this state.
    pub open spec fn record(self) -> DriverRecord {
        DriverRecord { fd: self.fd, write_value: self.write_value, read_value: self.read_value }
    }
}

/// The result for a driver status: success for 0, else the status itself.
pub open spec fn status_outcome(status: u32) -> Result<(), u32> {
    if status == 0 {
        Ok(())
    } else {
        Err(status)
    }
}

/// Turns a driver status into a result, passing a failure code on as it is.
pub fn status_result(status: u32) -> (r: Result<(), u32>)
    ensures
        r == status_outcome(status),
{
    if status == 0 {
        Ok(())
    } else {
        Err(status)
    }
}

/// A driver status of 0 gives success; any other status gives an error that
/// carries that very code.
pub proof fn lemma_status_passed_on(status: u32)
    ensures
        status == 0 ==> status_outcome(status) == Ok::<(), u32>(()),
        status != 0 ==> status_outcome(status) == Err::<(), u32>(status),
{
}

/// A resource just made reads 0 until a read fills its read slot.
pub proof fn lemma_fresh_reads_zero(device_path: Seq<char>)
    ensures
        GpioView::fresh(device_path).read_value == 0,
{
}

/// Of two values staged one after the other, the write is handed the last.
pub proof fn lemma_last_staged_written(state: GpioView, first: u32, last: u32)
    ensures
        state.staged(first).staged(last).record().write_value == last,
{
}

/// After a driver routine, the resource's slots are exactly those that the
/// routine left, whatever its status, and the device path is kept.
pub proof fn lemma_state_as_driver_left(state: GpioView, left: DriverRecord)
    ensures
        state.with_record(left).record() == left,
        state.with_record(left).device_path == state.device_path,
{
}

/// A GPIO pin bound to one device path.
pub struct GpioResource {
    fd: u32,
    write_value: u32,
    read_value: u32,
    file_name: String,
}

impl View for GpioResource {
    type V = GpioView;

    closed spec fn view(&self) -> GpioView {
        GpioView {
            fd: self.fd,
            write_value: self.write_value,
            read_value: self.read_value,
            device_path: self.file_name@,
        }
    }
}

impl GpioResource {
    /// A resource for the pin `device_file`, whose path `mapping_document`
    /// gives; the path is empty where the document does not.
    pub fn new(device_file: &str, mapping_document: &str) -> (r: GpioResource)
        ensures
            r@ == GpioView::fresh(resolved(mapping_document@, device_file@)),
    {
        GpioResource::with_path(resolve(mapping_document, device_file))
    }

    /// A resource for the device at `device_path`.
    pub fn with_path(device_path: String) -> (r: GpioResource)
        ensures
            r@ == GpioView::fresh(device_path@),
    {
        GpioResource { fd: 0, write_value: 0, read_value: 0, file_name: device_path }
    }

    /// The device path.
    pub fn device_path(&self) -> (r: &str)
        ensures
            r@ == self@.device_path,
    {
        self.file_name.as_str()
    }

    /// The record to hand a driver routine.
    pub fn driver_record(&self) -> (r: DriverRecord)
        ensures
            r == self@.record(),
    {
        DriverRecord { fd: self.fd, write_value: self.write_value, read_value: self.read_value }
    }

    /// Keeps the slots as a driver routine left them.
    fn take_record(&mut self, left: DriverRecord)
        ensures
            final(self)@ == old(self)@.with_record(left),
    {
        self.fd = left.fd;
        self.write_value = left.write_value;
        self.read_value = left.read_value;
    }

    /// Takes the outcome of the driver's open routine, which fills the
    /// descriptor slot: the record it left is kept whatever the status.
    pub fn open(&mut self, status: u32, left: DriverRecord) -> (r: Result<(), u32>)
        ensures
            final(self)@ == old(self)@.with_record(left),
            r == status_outcome(status),
    {
        self.take_record(left);
        status_result(status)
    }

    /// Takes the outcome of the driver's close routine, which reports no
    /// status: the record it left is kept.
    pub fn close(&mut self, left: DriverRecord)
        ensures
            final(self)@ == old(self)@.with_record(left),
    {
        self.take_record(left);
    }

    /// Takes the outcome of the driver's write routine, which was handed the
    /// staged value: the record it left is kept whatever the status.
    pub fn write(&mut self, status: u32, left: DriverRecord) -> (r: Result<(), u32>)
        ensures
            final(self)@ == old(self)@.with_record(left),
            r == status_outcome(status),
    {
        self.take_record(left);
        status_result(status)
    }

    /// Takes the outcome of the driver's read routine, which fills the read
    /// slot: the record it left is kept whatever the status.
    pub fn read(&mut self, status: u32, left: DriverRecord) -> (r: Result<(), u32>)
        ensures
            final(self)@ == old(self)@.with_record(left),
            r == status_outcome(status),
    {
        self.take_record(left);
        status_result(status)
    }

    /// Stages `value` for the next write, unchecked.
    pub fn set(&mut self, value: u32)
        ensures
            final(self)@ == old(self)@.staged(value),
    {
        self.write_value = value;
    }

    /// The value of the last read, left in place.
    pub fn get(&mut self) -> (r: u32)
        ensures
            final(self)@ == old(self)@,
            r == old(self)@.read_value,
    {
        self.read_value
    }
}

} // verus!
