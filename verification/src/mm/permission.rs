//! Access permissions of a mapped page.
use vstd::prelude::*;
use vstd::std_specs::convert::TryFromSpecImpl;

verus! {

/// What user code may do with a mapped page.
#[derive(Clone, Copy, Debug, PartialEq, Eq, Structural)]
pub struct MapPermission {
    /// The page can be read.
    pub readable: bool,
    /// The page can be written.
    pub writable: bool,
    /// Instructions can be fetched from the page.
    pub executable: bool,
    /// The page is accessible in user mode.
    pub user: bool,
}

/// Whether `port` is a permission mask that a mapping request may carry:
/// at least one of the three low bits set and no other bit set.
pub open spec fn valid_port(port: usize) -> bool {
    1 <= port <= 7
}

/// The permission that a valid mask `port` stands for: bit 0 is read, bit 1
/// is write, bit 2 is execute, and user-mode access is always granted.
pub open spec fn decode_port(port: usize) -> MapPermission {
    MapPermission {
        readable: port % 2 == 1,
        writable: (port / 2) % 2 == 1,
        executable: (port / 4) % 2 == 1,
        user: true,
    }
}

/// Reading a mask by its value agrees with reading it bit by bit: a mask is
/// valid exactly if no bit above bit 2 is set and one of the three low bits
/// is, and each of those bits grants its permission.
pub proof fn lemma_port_bits(port: usize)
    ensures
        valid_port(port) <==> (port & !0x7usize) == 0 && (port & 0x7usize) != 0,
        decode_port(port).readable <==> port & 1 != 0,
        decode_port(port).writable <==> port & 2 != 0,
        decode_port(port).executable <==> port & 4 != 0,
        decode_port(port).user,
{
    assert((1 <= port <= 7) <==> ((port & !0x7usize) == 0 && (port & 0x7usize) != 0))
        by (bit_vector);
    assert((port & 1usize != 0) == (port % 2 == 1)) by (bit_vector);
    assert((port & 2usize != 0) == ((port / 2) % 2 == 1)) by (bit_vector);
    assert((port & 4usize != 0) == ((port / 4) % 2 == 1)) by (bit_vector);
}

impl TryFrom<usize> for MapPermission {
    type Error = ();

    /// Decodes a permission mask, rejecting zero and any mask with a bit
    /// above bit 2.
    fn try_from(port: usize) -> (result: Result<Self, Self::Error>)
        ensures
            result is Ok <==> valid_port(port),
            result is Ok ==> result->Ok_0 == decode_port(port),
    {
        proof {
            lemma_port_bits(port);
        }
        // no bit outside the three low bits may be set, and a mapping without
        // any permission makes no sense
        if (port & !0x7) != 0 || (port & 0x7) == 0 {
            return Err(());
        }
        Ok(
            MapPermission {
                readable: port & 1 != 0,
                writable: port & 2 != 0,
                executable: port & 4 != 0,
                user: true,
            },
        )
    }
}

impl TryFromSpecImpl<usize> for MapPermission {
    open spec fn obeys_try_from_spec() -> bool {
        true
    }

    open spec fn try_from_spec(port: usize) -> Result<Self, Self::Error> {
        if valid_port(port) {
            Ok(decode_port(port))
        } else {
            Err(())
        }
    }
}

} // verus!
