//! Mapping a decoded stream's channel layout to device channel positions.
//!
//! A stream declares its channels as a list of positions; the playback
//! device wants its own position vocabulary.  A single channel maps to the
//! device's mono position; a layout with any position the device cannot
//! express yields no map at all, since the device could not open a stream
//! with an invalid layout.

use vstd::prelude::*;

verus! {

/// A channel position a decoded stream can declare.
#[derive(Clone, Copy, PartialEq, Eq, Structural, Debug)]
pub enum ChannelPosition {
    FrontLeft,
    FrontRight,
    FrontCentre,
    Lfe1,
    RearLeft,
    RearCentre,
    RearRight,
    FrontLeftCentre,
    FrontRightCentre,
    RearLeftCentre,
    RearRightCentre,
    Lfe2,
    SideLeft,
    SideRight,
    TopCentre,
    TopFrontLeft,
    TopFrontCentre,
    TopFrontRight,
    TopRearLeft,
    TopRearCentre,
    TopRearRight,
}

/// A channel position in the playback device's vocabulary.
#[derive(Clone, Copy, PartialEq, Eq, Structural, Debug)]
pub enum DevicePosition {
    Mono,
    FrontLeft,
    FrontRight,
    FrontCenter,
    RearLeft,
    RearCenter,
    RearRight,
    Lfe,
    FrontLeftOfCenter,
    FrontRightOfCenter,
    SideLeft,
    SideRight,
    TopCenter,
    TopFrontLeft,
    TopFrontCenter,
    TopFrontRight,
    TopRearLeft,
    TopRearCenter,
    TopRearRight,
}

/// Where one stream position lands on the device; the front-left channel of
/// a one-channel layout is mono.  Positions the device has no word for map
/// to nothing.
pub open spec fn device_position_of(ch: ChannelPosition, is_mono: bool) -> Option<
    DevicePosition,
> {
    match ch {
        ChannelPosition::FrontLeft => if is_mono {
            Some(DevicePosition::Mono)
        } else {
            Some(DevicePosition::FrontLeft)
        },
        ChannelPosition::FrontRight => Some(DevicePosition::FrontRight),
        ChannelPosition::FrontCentre => Some(DevicePosition::FrontCenter),
        ChannelPosition::RearLeft => Some(DevicePosition::RearLeft),
        ChannelPosition::RearCentre => Some(DevicePosition::RearCenter),
        ChannelPosition::RearRight => Some(DevicePosition::RearRight),
        ChannelPosition::Lfe1 => Some(DevicePosition::Lfe),
        ChannelPosition::FrontLeftCentre => Some(DevicePosition::FrontLeftOfCenter),
        ChannelPosition::FrontRightCentre => Some(DevicePosition::FrontRightOfCenter),
        ChannelPosition::SideLeft => Some(DevicePosition::SideLeft),
        ChannelPosition::SideRight => Some(DevicePosition::SideRight),
        ChannelPosition::TopCentre => Some(DevicePosition::TopCenter),
        ChannelPosition::TopFrontLeft => Some(DevicePosition::TopFrontLeft),
        ChannelPosition::TopFrontCentre => Some(DevicePosition::TopFrontCenter),
        ChannelPosition::TopFrontRight => Some(DevicePosition::TopFrontRight),
        ChannelPosition::TopRearLeft => Some(DevicePosition::TopRearLeft),
        ChannelPosition::TopRearCentre => Some(DevicePosition::TopRearCenter),
        ChannelPosition::TopRearRight => Some(DevicePosition::TopRearRight),
        _ => None,
    }
}

/// Map one stream position for a layout of the given width.
fn map_one(ch: ChannelPosition, is_mono: bool) -> (r: Option<DevicePosition>)
    ensures
        r == device_position_of(ch, is_mono),
{
    match ch {
        ChannelPosition::FrontLeft => {
            if is_mono {
                Some(DevicePosition::Mono)
            } else {
                Some(DevicePosition::FrontLeft)
            }
        },
        ChannelPosition::FrontRight => Some(DevicePosition::FrontRight),
        ChannelPosition::FrontCentre => Some(DevicePosition::FrontCenter),
        ChannelPosition::RearLeft => Some(DevicePosition::RearLeft),
        ChannelPosition::RearCentre => Some(DevicePosition::RearCenter),
        ChannelPosition::RearRight => Some(DevicePosition::RearRight),
        ChannelPosition::Lfe1 => Some(DevicePosition::Lfe),
        ChannelPosition::FrontLeftCentre => Some(DevicePosition::FrontLeftOfCenter),
        ChannelPosition::FrontRightCentre => Some(DevicePosition::FrontRightOfCenter),
        ChannelPosition::SideLeft => Some(DevicePosition::SideLeft),
        ChannelPosition::SideRight => Some(DevicePosition::SideRight),
        ChannelPosition::TopCentre => Some(DevicePosition::TopCenter),
        ChannelPosition::TopFrontLeft => Some(DevicePosition::TopFrontLeft),
        ChannelPosition::TopFrontCentre => Some(DevicePosition::TopFrontCenter),
        ChannelPosition::TopFrontRight => Some(DevicePosition::TopFrontRight),
        ChannelPosition::TopRearLeft => Some(DevicePosition::TopRearLeft),
        ChannelPosition::TopRearCentre => Some(DevicePosition::TopRearCenter),
        ChannelPosition::TopRearRight => Some(DevicePosition::TopRearRight),
        _ => None,
    }
}

/// Map a whole layout to device positions, in order.  A one-channel layout
/// is mono.  If any position cannot be expressed, there is no map — and then
/// some position of the layout indeed has no device word.
pub fn map_channels_to_device(channels: &Vec<ChannelPosition>) -> (r: Option<
    Vec<DevicePosition>,
>)
    ensures
        match r {
            Some(m) => {
                &&& m@.len() == channels@.len()
                &&& forall|i: int|
                    0 <= i < channels@.len() ==> Some(#[trigger] m@[i]) == device_position_of(
                        channels@[i],
                        channels@.len() == 1,
                    )
            },
            None => exists|i: int|
                0 <= i < channels@.len() && device_position_of(
                    #[trigger] channels@[i],
                    channels@.len() == 1,
                ) is None,
        },
{
    let is_mono = channels.len() == 1;
    let mut mapped: Vec<DevicePosition> = Vec::new();
    let mut i: usize = 0;
    while i < channels.len()
        invariant
            i <= channels@.len(),
            mapped@.len() == i,
            is_mono == (channels@.len() == 1),
            forall|j: int|
                0 <= j < i ==> Some(#[trigger] mapped@[j]) == device_position_of(
                    channels@[j],
                    channels@.len() == 1,
                ),
        decreases channels@.len() - i,
    {
        match map_one(channels[i], is_mono) {
            Some(p) => {
                mapped.push(p);
            },
            None => {
                return None;
            },
        }
        i = i + 1;
    }
    Some(mapped)
}

} // verus!
