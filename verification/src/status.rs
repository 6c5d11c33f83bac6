//! The printer-status snapshot and the current-value cell that distributes it.
//!
//! Numeric readings from the device arrive as decimal numbers; the library
//! carries each one in thousandths of its device unit (fixed point), so that
//! every computation on them is exact.

use vstd::prelude::*;

verus! {

/// LED brightness and fan speed of the printer's enclosure, each 0 to 255.
#[derive(Clone, Copy, PartialEq, Eq, Structural, Debug)]
pub struct EnclosureStatus {
    pub led: u8,
    pub fan: u8,
}

impl Default for EnclosureStatus {
    /// Both enclosure readings default to off.
    fn default() -> (r: Self)
        ensures
            r == (EnclosureStatus { led: 0, fan: 0 }),
    {
        EnclosureStatus { led: 0, fan: 0 }
    }
}

/// One immutable snapshot of the device's state, replaced wholesale on each
/// successful poll. Fields suffixed `_milli` hold thousandths of the device
/// unit: millimetres for positions, degrees for temperatures, mm/min for the
/// normalized work speed, seconds for times, percent for progress.
#[derive(Debug)]
pub struct PrinterStatus {
    pub status: String,
    pub x_milli: i64,
    pub y_milli: i64,
    pub z_milli: i64,
    pub homed: bool,
    pub nozzle_temperature_milli: i64,
    pub nozzle_target_temperature_milli: i64,
    pub heated_bed_temperature_milli: i64,
    pub heated_bed_target_temperature_milli: i64,
    pub work_speed_milli: u64,
    pub file_name: String,
    pub progress_milli: i64,
    pub estimated_time_milli: i64,
    pub elapsed_time_milli: i64,
    pub remaining_time_milli: i64,
    pub print_status: String,
    pub enclosure: EnclosureStatus,
}

/// The idle snapshot served before the first successful poll.
pub open spec fn is_idle_default(s: PrinterStatus) -> bool {
    &&& s.status@ == "IDLE"@
    &&& s.x_milli == 0
    &&& s.y_milli == 0
    &&& s.z_milli == 0
    &&& !s.homed
    &&& s.nozzle_temperature_milli == 0
    &&& s.nozzle_target_temperature_milli == 0
    &&& s.heated_bed_temperature_milli == 0
    &&& s.heated_bed_target_temperature_milli == 0
    &&& s.work_speed_milli == 0
    &&& s.file_name@ == "No file loaded"@
    &&& s.progress_milli == 0
    &&& s.estimated_time_milli == 0
    &&& s.elapsed_time_milli == 0
    &&& s.remaining_time_milli == 0
    &&& s.print_status@ == "Idle"@
    &&& s.enclosure == (EnclosureStatus { led: 0, fan: 0 })
}

impl Clone for PrinterStatus {
    fn clone(&self) -> (r: Self)
        ensures
            r == *self,
    {
        PrinterStatus {
            status: self.status.clone(),
            x_milli: self.x_milli,
            y_milli: self.y_milli,
            z_milli: self.z_milli,
            homed: self.homed,
            nozzle_temperature_milli: self.nozzle_temperature_milli,
            nozzle_target_temperature_milli: self.nozzle_target_temperature_milli,
            heated_bed_temperature_milli: self.heated_bed_temperature_milli,
            heated_bed_target_temperature_milli: self.heated_bed_target_temperature_milli,
            work_speed_milli: self.work_speed_milli,
            file_name: self.file_name.clone(),
            progress_milli: self.progress_milli,
            estimated_time_milli: self.estimated_time_milli,
            elapsed_time_milli: self.elapsed_time_milli,
            remaining_time_milli: self.remaining_time_milli,
            print_status: self.print_status.clone(),
            enclosure: self.enclosure,
        }
    }
}

impl Default for PrinterStatus {
    /// An idle, zeroed snapshot.
    fn default() -> (r: Self)
        ensures
            is_idle_default(r),
    {
        let r = PrinterStatus {
            status: String::from_str("IDLE"),
            x_milli: 0,
            y_milli: 0,
            z_milli: 0,
            homed: false,
            nozzle_temperature_milli: 0,
            nozzle_target_temperature_milli: 0,
            heated_bed_temperature_milli: 0,
            heated_bed_target_temperature_milli: 0,
            work_speed_milli: 0,
            file_name: String::from_str("No file loaded"),
            progress_milli: 0,
            estimated_time_milli: 0,
            elapsed_time_milli: 0,
            remaining_time_milli: 0,
            print_status: String::from_str("Idle"),
            enclosure: EnclosureStatus { led: 0, fan: 0 },
        };
        r
    }
}

/// `base` with its enclosure field replaced by `e`; all other fields kept.
pub open spec fn merged(base: PrinterStatus, e: EnclosureStatus) -> PrinterStatus {
    PrinterStatus { enclosure: e, ..base }
}

impl PrinterStatus {
    /// This snapshot with its enclosure field replaced, everything else kept.
    pub fn with_enclosure(self, e: EnclosureStatus) -> (r: Self)
        ensures
            r == merged(self, e),
    {
        let mut r = self;
        r.enclosure = e;
        r
    }
}

/// The single-writer, multi-reader cell that holds the latest published
/// snapshot. Readers always see the last complete snapshot, never a partial
/// merge: a snapshot is merged before it is ever stored here.
pub struct StatusWatch {
    current: PrinterStatus,
}

impl StatusWatch {
    /// The snapshot a reader sees right now.
    pub closed spec fn view(&self) -> PrinterStatus {
        self.current
    }

    /// Replace the published snapshot wholesale.
    pub fn publish(&mut self, snapshot: PrinterStatus)
        ensures
            final(self)@ == snapshot,
    {
        self.current = snapshot;
    }

    /// Read the latest published snapshot without disturbing it.
    pub fn borrow_latest(&self) -> (r: &PrinterStatus)
        ensures
            *r == self@,
    {
        &self.current
    }

    /// A copy of the latest published snapshot.
    pub fn snapshot(&self) -> (r: PrinterStatus)
        ensures
            r == self@,
    {
        self.current.clone()
    }
}

/// A fresh status cell, holding the default idle snapshot until the
/// keep-alive loop publishes a first merged one.
pub fn create_status_watch() -> (r: StatusWatch)
    ensures
        is_idle_default(r@),
{
    StatusWatch { current: PrinterStatus::default() }
}

} // verus!
