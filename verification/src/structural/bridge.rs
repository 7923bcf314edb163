//! Bridge: remote controls work against an abstract device interface, so
//! controls and devices evolve independently.

use vstd::prelude::*;

verus! {

pub trait Device {
    spec fn on_spec(&self) -> bool;

    spec fn volume_spec(&self) -> u16;

    fn is_on(&self) -> (r: bool)
        ensures
            r == self.on_spec(),
    ;

    fn turn_on(&mut self)
        ensures
            final(self).on_spec(),
            final(self).volume_spec() == old(self).volume_spec(),
    ;

    fn turn_off(&mut self)
        ensures
            !final(self).on_spec(),
            final(self).volume_spec() == old(self).volume_spec(),
    ;

    fn get_volume(&self) -> (r: u16)
        ensures
            r == self.volume_spec(),
    ;

    fn set_volume(&mut self, volume: u16)
        ensures
            final(self).volume_spec() == volume,
            final(self).on_spec() == old(self).on_spec(),
    ;
}

#[derive(Clone, Copy)]
pub struct TV {
    pub status: bool,
    pub volume: u16,
}

impl Device for TV {
    open spec fn on_spec(&self) -> bool {
        self.status
    }

    open spec fn volume_spec(&self) -> u16 {
        self.volume
    }

    fn is_on(&self) -> (r: bool) {
        self.status
    }

    fn turn_on(&mut self) {
        self.status = true;
    }

    fn turn_off(&mut self) {
        self.status = false;
    }

    fn get_volume(&self) -> (r: u16) {
        self.volume
    }

    fn set_volume(&mut self, volume: u16) {
        self.volume = volume
    }
}

pub struct RemoteControl {}

impl RemoteControl {
    /// Afterwards the device is on; the volume is untouched.
    pub fn turn_device_on<D: Device>(&self, device: &mut D)
        ensures
            final(device).on_spec(),
            final(device).volume_spec() == old(device).volume_spec(),
    {
        if !device.is_on() {
            device.turn_on();
        }
    }

    /// Afterwards the device is off; the volume is untouched.
    pub fn turn_device_off<D: Device>(&self, device: &mut D)
        ensures
            !final(device).on_spec(),
            final(device).volume_spec() == old(device).volume_spec(),
    {
        if device.is_on() {
            device.turn_off();
        }
    }

    pub fn increment_volume<D: Device>(&self, device: &mut D)
        requires
            old(device).volume_spec() < u16::MAX,
        ensures
            final(device).volume_spec() == old(device).volume_spec() + 1,
            final(device).on_spec() == old(device).on_spec(),
    {
        let v = device.get_volume();
        device.set_volume(v + 1);
    }

    pub fn decrement_volume<D: Device>(&self, device: &mut D)
        requires
            old(device).volume_spec() > 0,
        ensures
            final(device).volume_spec() == old(device).volume_spec() - 1,
            final(device).on_spec() == old(device).on_spec(),
    {
        let v = device.get_volume();
        device.set_volume(v - 1);
    }
}

/// The next model reuses the original control and only adds muting.
pub struct NextGenerationRemoteControl {
    pub rc: RemoteControl,
}

impl NextGenerationRemoteControl {
    pub fn mute<D: Device>(&self, device: &mut D)
        ensures
            final(device).volume_spec() == 0,
            final(device).on_spec() == old(device).on_spec(),
    {
        device.set_volume(0);
    }
}

} // verus!
