use vstd::prelude::*;

verus! {

/// How the channels of a layout are described.
#[derive(Debug, Clone, Copy, PartialEq, Eq, Structural)]
pub enum AVChannelOrder {
    /// Only the number of channels is known.
    Unspecified,
    /// Channels follow the library's native order, given by a mask.
    Native,
    /// Each channel is named one by one.
    Custom,
    /// Channels are ambisonic components.
    Ambisonic,
}

/// The codec library's number for each channel order.
pub open spec fn channel_order_raw(o: AVChannelOrder) -> u32 {
    match o {
        AVChannelOrder::Unspecified => 0,
        AVChannelOrder::Native => 1,
        AVChannelOrder::Custom => 2,
        AVChannelOrder::Ambisonic => 3,
    }
}

impl AVChannelOrder {
    pub fn raw(self) -> (r: u32)
        ensures
            r == channel_order_raw(self),
    {
        match self {
            AVChannelOrder::Unspecified => 0,
            AVChannelOrder::Native => 1,
            AVChannelOrder::Custom => 2,
            AVChannelOrder::Ambisonic => 3,
        }
    }

    /// The channel order with the library's number `raw`, if any.
    pub fn from_raw(raw: u32) -> (r: Option<AVChannelOrder>)
        ensures
            r matches Some(o) ==> channel_order_raw(o) == raw,
            r is None <==> raw > 3,
    {
        if raw == 0 {
            Some(AVChannelOrder::Unspecified)
        } else if raw == 1 {
            Some(AVChannelOrder::Native)
        } else if raw == 2 {
            Some(AVChannelOrder::Custom)
        } else if raw == 3 {
            Some(AVChannelOrder::Ambisonic)
        } else {
            None
        }
    }
}

/// The channel layout of an audio stream: an order and a channel count that
/// the codec library can hold (a C `int`).
#[derive(Debug, Clone, Copy)]
pub struct ChannelLayout {
    order: AVChannelOrder,
    nb_channels: i32,
}

impl ChannelLayout {
    #[verifier::type_invariant]
    spec fn count_is_natural(self) -> bool {
        self.nb_channels >= 0
    }

    /// The number of channels.
    pub closed spec fn spec_count(self) -> nat {
        self.nb_channels as nat
    }

    /// The channel order.
    pub closed spec fn spec_order(self) -> AVChannelOrder {
        self.order
    }

    /// A layout of `channel_count` channels whose order is not specified.
    pub fn unspecified(channel_count: usize) -> (r: ChannelLayout)
        requires
            channel_count <= i32::MAX,
        ensures
            r.spec_count() == channel_count,
            r.spec_order() == AVChannelOrder::Unspecified,
    {
        ChannelLayout { order: AVChannelOrder::Unspecified, nb_channels: channel_count as i32 }
    }

    pub fn count(&self) -> (r: usize)
        ensures
            r == self.spec_count(),
    {
        proof { use_type_invariant(self); }
        self.nb_channels as usize
    }

    pub fn set_count(&mut self, count: usize)
        requires
            count <= i32::MAX,
        ensures
            final(self).spec_count() == count,
            final(self).spec_order() == old(self).spec_order(),
    {
        self.nb_channels = count as i32;
    }

    pub fn order(&self) -> (r: AVChannelOrder)
        ensures
            r == self.spec_order(),
    {
        self.order
    }

    pub fn set_order(&mut self, order: AVChannelOrder)
        ensures
            final(self).spec_order() == order,
            final(self).spec_count() == old(self).spec_count(),
    {
        proof { use_type_invariant(&*self); }
        self.order = order;
    }

    /// The channel count as the codec library stores it.
    pub fn raw_count(&self) -> (r: i32)
        ensures
            r == self.spec_count(),
    {
        proof { use_type_invariant(self); }
        self.nb_channels
    }
}

} // verus!
