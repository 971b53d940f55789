use vstd::prelude::*;
use vstd::pervasive::VecAdditionalExecFns;

verus! {

/// The 16-bit value formed from a low and a high byte; the low byte sits at
/// the lower address.
pub open spec fn word_of_bytes(lo: u8, hi: u8) -> u16 {
    (lo + 256 * hi) as u16
}

/// The 16-bit value spanning offsets `a` and `a + 1` of a byte sequence.
pub open spec fn word_at(mem: Seq<u8>, a: int) -> u16 {
    word_of_bytes(mem[a], mem[a + 1])
}

/// The low byte of a 16-bit value.
pub open spec fn low_byte(v: u16) -> u8 {
    (v % 256) as u8
}

/// The high byte of a 16-bit value.
pub open spec fn high_byte(v: u16) -> u8 {
    (v / 256) as u8
}

/// A fixed-capacity, contiguous byte space with bounds-checked single-byte
/// and two-byte access and bulk load. A failed access never partially
/// mutates the contents.
pub struct LinearMemory {
    data: Vec<u8>,
}

impl View for LinearMemory {
    type V = Seq<u8>;

    closed spec fn view(&self) -> Seq<u8> {
        self.data@
    }
}

impl LinearMemory {
    /// A zero-filled memory of the given capacity.
    pub fn new(capacity: usize) -> (m: Self)
        ensures
            m@.len() == capacity,
            forall|i: int| 0 <= i < capacity ==> m@[i] == 0u8,
    {
        let mut data: Vec<u8> = Vec::new();
        let mut i: usize = 0;
        while i < capacity
            invariant
                i <= capacity,
                data@.len() == i,
                forall|k: int| 0 <= k < i ==> data@[k] == 0u8,
            decreases capacity - i,
        {
            data.push(0);
            i += 1;
        }
        LinearMemory { data }
    }

    /// The capacity in bytes.
    pub fn len(&self) -> (n: usize)
        ensures
            n == self@.len(),
    {
        self.data.len()
    }

    /// Reads the byte at `addr`; fails when the offset is at or past the
    /// capacity.
    pub fn read(&self, addr: u16) -> (r: Option<u8>)
        ensures
            r == (if (addr as int) < self@.len() {
                Some(self@[addr as int])
            } else {
                None::<u8>
            }),
    {
        if (addr as usize) < self.data.len() {
            Some(self.data[addr as usize])
        } else {
            None
        }
    }

    /// Writes one byte at `addr`; an out-of-bounds offset changes nothing and
    /// reports false.
    pub fn write(&mut self, addr: u16, value: u8) -> (ok: bool)
        ensures
            ok == ((addr as int) < old(self)@.len()),
            ok ==> final(self)@ == old(self)@.update(addr as int, value),
            !ok ==> final(self)@ == old(self)@,
    {
        if (addr as usize) < self.data.len() {
            self.data.set(addr as usize, value);
            true
        } else {
            false
        }
    }

    /// Reads the 16-bit value spanning `addr` and `addr + 1`, low byte first;
    /// fails when `addr + 1` is at or past the capacity.
    pub fn read2(&self, addr: u16) -> (r: Option<u16>)
        ensures
            r == (if addr as int + 1 < self@.len() {
                Some(word_at(self@, addr as int))
            } else {
                None::<u16>
            }),
    {
        let a = addr as usize;
        if a + 1 < self.data.len() {
            let lo = self.data[a];
            let hi = self.data[a + 1];
            Some(lo as u16 + 256 * (hi as u16))
        } else {
            None
        }
    }

    /// Writes the 16-bit value across `addr` and `addr + 1`, low byte first;
    /// when `addr + 1` is out of bounds nothing changes, not even the byte at
    /// `addr`.
    pub fn write2(&mut self, addr: u16, value: u16) -> (ok: bool)
        ensures
            ok == (addr as int + 1 < old(self)@.len()),
            ok ==> final(self)@ == old(self)@.update(addr as int, low_byte(value)).update(
                addr as int + 1,
                high_byte(value),
            ),
            !ok ==> final(self)@ == old(self)@,
    {
        let a = addr as usize;
        if a + 1 < self.data.len() {
            let lo: u16 = value & 0xff;
            let hi: u16 = value >> 8;
            proof {
                assert(value & 0xff == value % 256) by (bit_vector);
                assert(value >> 8 == value / 256) by (bit_vector);
            }
            self.data.set(a, lo as u8);
            self.data.set(a + 1, hi as u8);
            true
        } else {
            false
        }
    }

    /// Copies `src` in order into memory starting at `origin`. When the copy
    /// would run past the end it is refused whole: nothing is written and
    /// false is reported.
    pub fn load_from_vec(&mut self, src: &Vec<u8>, origin: u16) -> (ok: bool)
        ensures
            ok == (origin as int + src@.len() <= old(self)@.len()),
            ok ==> final(self)@ == old(self)@.take(origin as int) + src@ + old(self)@.skip(
                origin as int + src@.len(),
            ),
            !ok ==> final(self)@ == old(self)@,
    {
        let o = origin as usize;
        if o <= self.data.len() && src.len() <= self.data.len() - o {
            let mut i: usize = 0;
            while i < src.len()
                invariant
                    i <= src.len(),
                    o + src.len() <= self.data.len(),
                    self.data@.len() == old(self)@.len(),
                    forall|k: int|
                        0 <= k < self.data@.len() && !(o <= k < o + i) ==> self.data@[k] == old(
                            self,
                        )@[k],
                    forall|k: int| o <= k < o + i ==> self.data@[k] == src@[k - o],
                decreases src.len() - i,
            {
                self.data.set(o + i, src[i]);
                i += 1;
            }
            proof {
                assert(self.data@ =~= old(self)@.take(o as int) + src@ + old(self)@.skip(
                    o as int + src@.len(),
                ));
            }
            true
        } else {
            false
        }
    }
}

} // verus!
