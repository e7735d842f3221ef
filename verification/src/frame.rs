use vstd::prelude::*;

verus! {

/// Mathematical image of a telemetry frame: the identifier as a sequence of
/// characters, the integer fields as themselves, and each real-valued channel
/// as the 32-bit pattern that carries it on the wire.
pub ghost struct FrameView {
    pub driver_id: Seq<char>,
    pub timestamp: i64,
    pub speed_bits: u32,
    pub rpm_bits: u32,
    pub gear: i32,
    pub throttle_bits: u32,
    pub brake_bits: u32,
    pub drs_bits: u32,
    pub x_bits: u32,
    pub y_bits: u32,
    pub z_bits: u32,
}

/// One telemetry sample for one tracked entity at one instant.
///
/// A frame is immutable after construction and is copied by value into the
/// broadcast medium and again to every subscriber, so no two holders alias.
/// The real-valued channels (speed, rpm, throttle, brake, drs, position) are
/// carried as their 32-bit patterns: this crate never interprets them, it
/// only moves them field for field, and the boundary code converts at the
/// edge.
pub struct Frame {
    pub driver_id: String,
    pub timestamp: i64,
    pub speed_bits: u32,
    pub rpm_bits: u32,
    pub gear: i32,
    pub throttle_bits: u32,
    pub brake_bits: u32,
    pub drs_bits: u32,
    pub x_bits: u32,
    pub y_bits: u32,
    pub z_bits: u32,
}

impl View for Frame {
    type V = FrameView;

    open spec fn view(&self) -> FrameView {
        FrameView {
            driver_id: self.driver_id@,
            timestamp: self.timestamp,
            speed_bits: self.speed_bits,
            rpm_bits: self.rpm_bits,
            gear: self.gear,
            throttle_bits: self.throttle_bits,
            brake_bits: self.brake_bits,
            drs_bits: self.drs_bits,
            x_bits: self.x_bits,
            y_bits: self.y_bits,
            z_bits: self.z_bits,
        }
    }
}

impl Clone for Frame {
    fn clone(&self) -> (res: Self)
        ensures
            res@ == self@,
    {
        Frame {
            driver_id: self.driver_id.clone(),
            timestamp: self.timestamp,
            speed_bits: self.speed_bits,
            rpm_bits: self.rpm_bits,
            gear: self.gear,
            throttle_bits: self.throttle_bits,
            brake_bits: self.brake_bits,
            drs_bits: self.drs_bits,
            x_bits: self.x_bits,
            y_bits: self.y_bits,
            z_bits: self.z_bits,
        }
    }
}

} // verus!
