//! Configuration and data related to the ADC operations.

use vstd::prelude::*;

use crate::gpio::{control_address, pad_address, GPIOTyped};
use crate::register::RegisterOp;

verus! {

/// The types of operations that the ADC can perform.
#[derive(Clone, Copy, Debug, PartialEq, Eq, Structural)]
pub enum Operation {
    /// Performs a single conversion on a given analog `Channel`.
    Oneshot(Channel),
    /// Performs continuous conversions (up to a limit) on the given `ChannelList`.
    Continuous(ChannelList),
}

/// Selects the bit precision of the ADC conversion.
#[derive(Clone, Copy, Debug, PartialEq, Eq, Structural)]
pub enum Precision {
    /// Performs a 11-bit reading.
    Full,
    /// Performs a compressed 8-bit reading.
    Compressed,
}

/// All channels available for analog measurements.
#[derive(Clone, Copy, Debug, PartialEq, Eq, Structural)]
pub enum Channel {
    /// Measures from an external voltage channel.
    External(ExternalChannel),
    /// Measures from the internal temperature.
    Temperature,
}

/// External channels available for analog measurements (QFN-80 package).
#[derive(Clone, Copy, Debug, PartialEq, Eq, Structural)]
pub enum ExternalChannel {
    Ch0,
    Ch1,
    Ch2,
    Ch3,
    Ch4,
    Ch5,
    Ch6,
    Ch7,
}

impl ExternalChannel {
    /// The number of this channel.
    pub open spec fn number_spec(self) -> u32 {
        match self {
            ExternalChannel::Ch0 => 0,
            ExternalChannel::Ch1 => 1,
            ExternalChannel::Ch2 => 2,
            ExternalChannel::Ch3 => 3,
            ExternalChannel::Ch4 => 4,
            ExternalChannel::Ch5 => 5,
            ExternalChannel::Ch6 => 6,
            ExternalChannel::Ch7 => 7,
        }
    }

    /// Returns the number of this channel.
    pub fn number(self) -> (r: u32)
        ensures
            r == self.number_spec(),
    {
        match self {
            ExternalChannel::Ch0 => 0,
            ExternalChannel::Ch1 => 1,
            ExternalChannel::Ch2 => 2,
            ExternalChannel::Ch3 => 3,
            ExternalChannel::Ch4 => 4,
            ExternalChannel::Ch5 => 5,
            ExternalChannel::Ch6 => 6,
            ExternalChannel::Ch7 => 7,
        }
    }

    /// Turns one of the analog capable pins (40 to 47) into its analog channel: no GPIO
    /// controller, digital input disabled on the pad.
    pub fn from_pin<const N: usize>(pin: GPIOTyped<N>) -> (r: (ExternalChannel, Vec<RegisterOp>))
        requires
            40 <= N <= 47,
        ensures
            r.0.number_spec() == N - 40,
            r.1@ == seq![
                RegisterOp::Write { address: control_address(N as int) as usize, value: 0x1F },
                RegisterOp::Write { address: pad_address(N as int) as usize, value: 1u32 << 7 },
            ],
    {
        let ops = pin.configure(0x1F, 1u32 << 7);
        let channel = match N {
            40 => ExternalChannel::Ch0,
            41 => ExternalChannel::Ch1,
            42 => ExternalChannel::Ch2,
            43 => ExternalChannel::Ch3,
            44 => ExternalChannel::Ch4,
            45 => ExternalChannel::Ch5,
            46 => ExternalChannel::Ch6,
            _ => ExternalChannel::Ch7,
        };
        (channel, ops)
    }

    /// The list holding only this channel.
    fn into_list(self) -> (r: ChannelList)
        ensures
            r.0 == 1u16 << self.number_spec() as u16,
    {
        match self {
            ExternalChannel::Ch0 => ChannelList::ch0(),
            ExternalChannel::Ch1 => ChannelList::ch1(),
            ExternalChannel::Ch2 => ChannelList::ch2(),
            ExternalChannel::Ch3 => ChannelList::ch3(),
            ExternalChannel::Ch4 => ChannelList::ch4(),
            ExternalChannel::Ch5 => ChannelList::ch5(),
            ExternalChannel::Ch6 => ChannelList::ch6(),
            ExternalChannel::Ch7 => ChannelList::ch7(),
        }
    }
}

impl Channel {
    /// The input selector value of this channel.
    pub open spec fn number_spec(self) -> u32 {
        match self {
            Channel::External(external) => external.number_spec(),
            Channel::Temperature => 8,
        }
    }

    /// Returns the input selector value of this channel.
    pub fn number(self) -> (r: u32)
        ensures
            r == self.number_spec(),
    {
        match self {
            Channel::External(external) => external.number(),
            Channel::Temperature => 8,
        }
    }

    /// The list holding only this channel.
    fn into_list(self) -> (r: ChannelList)
        ensures
            r.0 == 1u16 << self.number_spec() as u16,
    {
        match self {
            Channel::External(external) => external.into_list(),
            Channel::Temperature => ChannelList::temperature(),
        }
    }
}

impl From<ExternalChannel> for ChannelList {
    /// The list holding only the given channel.
    fn from(channel: ExternalChannel) -> (r: Self) {
        channel.into_list()
    }
}

impl vstd::std_specs::convert::FromSpecImpl<ExternalChannel> for ChannelList {
    open spec fn obeys_from_spec() -> bool {
        true
    }

    open spec fn from_spec(channel: ExternalChannel) -> Self {
        ChannelList(1u16 << channel.number_spec() as u16)
    }
}

impl From<Channel> for ChannelList {
    /// The list holding only the given channel.
    fn from(channel: Channel) -> (r: Self) {
        channel.into_list()
    }
}

impl vstd::std_specs::convert::FromSpecImpl<Channel> for ChannelList {
    open spec fn obeys_from_spec() -> bool {
        true
    }

    open spec fn from_spec(channel: Channel) -> Self {
        ChannelList(1u16 << channel.number_spec() as u16)
    }
}

impl From<ExternalChannel> for u32 {
    /// The number of the given channel.
    fn from(channel: ExternalChannel) -> (r: Self) {
        channel.number()
    }
}

impl vstd::std_specs::convert::FromSpecImpl<ExternalChannel> for u32 {
    open spec fn obeys_from_spec() -> bool {
        true
    }

    open spec fn from_spec(channel: ExternalChannel) -> Self {
        channel.number_spec()
    }
}

impl From<Channel> for u32 {
    /// The input selector value of the given channel.
    fn from(channel: Channel) -> (r: Self) {
        channel.number()
    }
}

impl vstd::std_specs::convert::FromSpecImpl<Channel> for u32 {
    open spec fn obeys_from_spec() -> bool {
        true
    }

    open spec fn from_spec(channel: Channel) -> Self {
        channel.number_spec()
    }
}

/// Bit collection of enabled channels for a continuous conversion: bit `n` for channel `n`.
#[derive(Clone, Copy, Debug, PartialEq, Eq, Structural)]
pub struct ChannelList(pub u16);

/// The list bit of each channel number.
proof fn lemma_single_channel_bits()
    ensures
        1u16 << 0u16 == 1,
        1u16 << 1u16 == 2,
        1u16 << 2u16 == 4,
        1u16 << 3u16 == 8,
        1u16 << 4u16 == 16,
        1u16 << 5u16 == 32,
        1u16 << 6u16 == 64,
        1u16 << 7u16 == 128,
        1u16 << 8u16 == 256,
{
    assert({
        &&& 1u16 << 0u16 == 1
        &&& 1u16 << 1u16 == 2
        &&& 1u16 << 2u16 == 4
        &&& 1u16 << 3u16 == 8
        &&& 1u16 << 4u16 == 16
        &&& 1u16 << 5u16 == 32
        &&& 1u16 << 6u16 == 64
        &&& 1u16 << 7u16 == 128
        &&& 1u16 << 8u16 == 256
    }) by (bit_vector);
}

impl ChannelList {
    /// The empty list.
    pub fn empty() -> (r: Self)
        ensures
            r.0 == 0,
    {
        ChannelList(0)
    }

    /// Returns the raw bits of the list.
    pub fn bits(&self) -> (r: u16)
        ensures
            r == self.0,
    {
        self.0
    }

    /// The union of two lists.
    pub fn union(self, other: Self) -> (r: Self)
        ensures
            r.0 == self.0 | other.0,
    {
        ChannelList(self.0 | other.0)
    }

    /// Returns `true` when every channel of `other` is in the list.
    pub fn contains(&self, other: Self) -> (r: bool)
        ensures
            r == (self.0 & other.0 == other.0),
    {
        self.0 & other.0 == other.0
    }

    /// The list of channel 0.
    pub fn ch0() -> (r: Self) ensures r.0 == 1u16 << 0u16 {
        proof {
            lemma_single_channel_bits();
        }
        ChannelList(1)
    }

    /// The list of channel 1.
    pub fn ch1() -> (r: Self) ensures r.0 == 1u16 << 1u16 {
        proof {
            lemma_single_channel_bits();
        }
        ChannelList(2)
    }

    /// The list of channel 2.
    pub fn ch2() -> (r: Self) ensures r.0 == 1u16 << 2u16 {
        proof {
            lemma_single_channel_bits();
        }
        ChannelList(4)
    }

    /// The list of channel 3.
    pub fn ch3() -> (r: Self) ensures r.0 == 1u16 << 3u16 {
        proof {
            lemma_single_channel_bits();
        }
        ChannelList(8)
    }

    /// The list of channel 4.
    pub fn ch4() -> (r: Self) ensures r.0 == 1u16 << 4u16 {
        proof {
            lemma_single_channel_bits();
        }
        ChannelList(16)
    }

    /// The list of channel 5.
    pub fn ch5() -> (r: Self) ensures r.0 == 1u16 << 5u16 {
        proof {
            lemma_single_channel_bits();
        }
        ChannelList(32)
    }

    /// The list of channel 6.
    pub fn ch6() -> (r: Self) ensures r.0 == 1u16 << 6u16 {
        proof {
            lemma_single_channel_bits();
        }
        ChannelList(64)
    }

    /// The list of channel 7.
    pub fn ch7() -> (r: Self) ensures r.0 == 1u16 << 7u16 {
        proof {
            lemma_single_channel_bits();
        }
        ChannelList(128)
    }

    /// The list of the temperature sensor.
    pub fn temperature() -> (r: Self) ensures r.0 == 1u16 << 8u16 {
        proof {
            lemma_single_channel_bits();
        }
        ChannelList(256)
    }

    /// The list of all the given channels.
    pub fn from_channels(channels: &[Channel]) -> (r: Self)
        ensures
            forall|n: u16|
                n < 16 ==> (#[trigger] ((r.0 >> n) & 1) == 1 <==> exists|i: int|
                    0 <= i < channels@.len() && channels@[i].number_spec() == n),
    {
        let mut list = ChannelList::empty();
        let mut i: usize = 0;
        assert(forall|n: u16| n < 16 ==> #[trigger] ((0u16 >> n) & 1) == 0) by (bit_vector);
        while i < channels.len()
            invariant
                i <= channels@.len(),
                forall|n: u16|
                    n < 16 ==> (#[trigger] ((list.0 >> n) & 1) == 1 <==> exists|j: int|
                        0 <= j < i && channels@[j].number_spec() == n),
            decreases channels@.len() - i,
        {
            let single = channels[i].into_list();
            let ghost c = channels@[i as int].number_spec() as u16;
            let old_list = list;
            list = list.union(single);
            proof {
                assert(c <= 8);
                assert(forall|w: u16, n: u16, b: u16|
                    n < 16 && b < 16 ==> #[trigger] (((w | (1u16 << b)) >> n) & 1) == if n == b {
                        1u16
                    } else {
                        (w >> n) & 1
                    }) by (bit_vector);
                assert forall|n: u16| n < 16 implies (#[trigger] ((list.0 >> n) & 1) == 1 <==> exists|j: int|
                    0 <= j < i + 1 && channels@[j].number_spec() == n) by {
                    assert((((old_list.0 | (1u16 << c)) >> n) & 1) == if n == c { 1u16 } else { (old_list.0 >> n) & 1 });
                    if n == c {
                        assert(channels@[i as int].number_spec() == n);
                    }
                    if exists|j: int| 0 <= j < i + 1 && channels@[j].number_spec() == n {
                        let j = choose|j: int| 0 <= j < i + 1 && channels@[j].number_spec() == n;
                        if j < i {
                            assert((old_list.0 >> n) & 1 == 1);
                        }
                    }
                }
            }
            i = i + 1;
        }
        list
    }
}

} // verus!
