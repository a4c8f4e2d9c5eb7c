use crate::error::Error;
use vstd::prelude::*;

verus! {

/// The number of cells along one side of a one arc-second tile.
pub const EXTENT: usize = 3600;

/// The sample spacings of SRTM data, in arc-seconds.
#[derive(PartialEq, Eq, Clone, Copy, PartialOrd, Ord, Debug, Hash, Structural)]
pub enum Resolution {
    /// Half an arc-second.
    SRTM05,
    /// One arc-second.
    SRTM1,
    /// Three arc-seconds.
    SRTM3,
}

impl Resolution {
    /// The number of cells along one side of a tile: `7200`, `3600` or `1200`.
    pub open spec fn spec_cells(&self) -> nat {
        match self {
            Resolution::SRTM05 => 7200,
            Resolution::SRTM1 => 3600,
            Resolution::SRTM3 => 1200,
        }
    }

    /// The number of samples along one side of a tile. Both edges of the cell
    /// are sampled, hence one more than the number of cells.
    pub open spec fn spec_extent(&self) -> nat {
        1 + self.spec_cells()
    }

    /// The number of samples in a tile.
    pub open spec fn spec_total_len(&self) -> nat {
        self.spec_extent() * self.spec_extent()
    }

    /// The byte length of a tile's file: two bytes for each sample.
    pub open spec fn spec_byte_len(&self) -> nat {
        2 * self.spec_total_len()
    }

    /// The resolution of a file of `len` bytes, which is the one whose byte
    /// length is exactly `len`.
    pub open spec fn spec_from_byte_length(len: u64) -> Result<Resolution, Error> {
        if len == Resolution::SRTM05.spec_byte_len() {
            Ok(Resolution::SRTM05)
        } else if len == Resolution::SRTM1.spec_byte_len() {
            Ok(Resolution::SRTM1)
        } else if len == Resolution::SRTM3.spec_byte_len() {
            Ok(Resolution::SRTM3)
        } else {
            Err(Error::Filesize)
        }
    }

    /// The three extents, and what they come to squared and doubled.
    pub proof fn lemma_sizes()
        ensures
            Resolution::SRTM05.spec_extent() == 7201,
            Resolution::SRTM1.spec_extent() == 3601,
            Resolution::SRTM3.spec_extent() == 1201,
            Resolution::SRTM05.spec_total_len() == 51_854_401,
            Resolution::SRTM1.spec_total_len() == 12_967_201,
            Resolution::SRTM3.spec_total_len() == 1_442_401,
            Resolution::SRTM05.spec_byte_len() == 103_708_802,
            Resolution::SRTM1.spec_byte_len() == 25_934_402,
            Resolution::SRTM3.spec_byte_len() == 2_884_802,
    {
        assert(7201 * 7201 == 51_854_401) by (nonlinear_arith);
        assert(3601 * 3601 == 12_967_201) by (nonlinear_arith);
        assert(1201 * 1201 == 1_442_401) by (nonlinear_arith);
    }

    /// The number of rows and columns in a tile of this resolution.
    pub fn extent(&self) -> (e: usize)
        ensures
            e == self.spec_extent(),
            1201 <= e <= 7201,
    {
        1 + match self {
            Resolution::SRTM05 => EXTENT * 2,
            Resolution::SRTM1 => EXTENT,
            Resolution::SRTM3 => EXTENT / 3,
        }
    }

    /// The number of samples in a tile of this resolution. The file holds twice
    /// as many bytes.
    pub fn total_len(&self) -> (n: usize)
        ensures
            n == self.spec_total_len(),
            1_442_401 <= n <= 51_854_401,
    {
        proof {
            Self::lemma_sizes();
        }
        let e: usize = self.extent();
        e * e
    }

    /// Tells the resolution of a tile from the byte length of its file. The
    /// length has to be exactly that of one of the three resolutions.
    pub fn from_byte_length(len: u64) -> (res: Result<Resolution, Error>)
        ensures
            res == Self::spec_from_byte_length(len),
    {
        proof {
            Self::lemma_sizes();
        }
        if len == 103_708_802 {
            Ok(Resolution::SRTM05)
        } else if len == 25_934_402 {
            Ok(Resolution::SRTM1)
        } else if len == 2_884_802 {
            Ok(Resolution::SRTM3)
        } else {
            Err(Error::Filesize)
        }
    }
}

impl Default for Resolution {
    /// One arc-second, the most common spacing.
    fn default() -> (res: Self)
        ensures
            res == Resolution::SRTM1,
    {
        Resolution::SRTM1
    }
}

impl TryFrom<u64> for Resolution {
    type Error = Error;

    /// The resolution of a tile whose file is `len` bytes long.
    fn try_from(len: u64) -> (res: Result<Resolution, Error>) {
        Resolution::from_byte_length(len)
    }
}

impl vstd::std_specs::convert::TryFromSpecImpl<u64> for Resolution {
    open spec fn obeys_try_from_spec() -> bool {
        true
    }

    open spec fn try_from_spec(len: u64) -> Result<Resolution, Error> {
        Resolution::spec_from_byte_length(len)
    }
}

} // verus!
