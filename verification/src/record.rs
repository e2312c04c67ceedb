use vstd::prelude::*;

verus! {

/// Mathematical view of a [`Record`]: the two position components as
/// the raw bit patterns of their 64-bit wire encoding, and the label
/// as a sequence of characters.
pub ghost struct RecordView {
    pub lat_bits: u64,
    pub lon_bits: u64,
    pub girouette: Seq<char>,
}

/// The latest known state of the relay: a position (latitude and
/// longitude, each carried as the 64-bit little-endian bit pattern
/// read from the wire) and a free-text label ("girouette").
///
/// The position is held as bit patterns rather than as numbers: the
/// relay never does arithmetic on it, it only carries the value from
/// the sensor to the viewer unchanged.
pub struct Record {
    pub lat_bits: u64,
    pub lon_bits: u64,
    pub girouette: String,
}

impl View for Record {
    type V = RecordView;

    open spec fn view(&self) -> RecordView {
        RecordView {
            lat_bits: self.lat_bits,
            lon_bits: self.lon_bits,
            girouette: self.girouette@,
        }
    }
}

impl Record {
    /// The initial state: position (0, 0) — the bit pattern of a zero
    /// component is 0 — and an empty label.
    pub fn new() -> (r: Record)
        ensures
            r@ == (RecordView { lat_bits: 0, lon_bits: 0, girouette: Seq::<char>::empty() }),
    {
        Record { lat_bits: 0, lon_bits: 0, girouette: String::new() }
    }

    /// The current position, as the pair of bit patterns, exactly as
    /// last stored.
    pub fn get_position(&self) -> (r: (u64, u64))
        ensures
            r.0 == self@.lat_bits,
            r.1 == self@.lon_bits,
    {
        (self.lat_bits, self.lon_bits)
    }

    /// A copy of the current label.
    pub fn get_girouette(&self) -> (r: String)
        ensures
            r@ == self@.girouette,
    {
        self.girouette.clone()
    }

    /// Replaces the position pair as one unit; the label is untouched.
    pub fn set_position(&mut self, lat_bits: u64, lon_bits: u64)
        ensures
            final(self)@ == (RecordView {
                lat_bits,
                lon_bits,
                girouette: old(self)@.girouette,
            }),
    {
        self.lat_bits = lat_bits;
        self.lon_bits = lon_bits;
    }

    /// Replaces the label; the position is untouched.
    pub fn set_girouette(&mut self, girouette: String)
        ensures
            final(self)@ == (RecordView {
                lat_bits: old(self)@.lat_bits,
                lon_bits: old(self)@.lon_bits,
                girouette: girouette@,
            }),
    {
        self.girouette = girouette;
    }
}

/// After a position update, reading the position gives back exactly
/// the pair that was stored, and the label is exactly what it was:
/// storing the pair is a single atomic replacement of both components.
pub proof fn law_set_position_then_get(r: RecordView, lat_bits: u64, lon_bits: u64)
    ensures
        (RecordView { lat_bits, lon_bits, girouette: r.girouette }).lat_bits == lat_bits,
        (RecordView { lat_bits, lon_bits, girouette: r.girouette }).lon_bits == lon_bits,
        (RecordView { lat_bits, lon_bits, girouette: r.girouette }).girouette == r.girouette,
{
}

} // verus!
