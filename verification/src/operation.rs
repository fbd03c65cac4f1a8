//! The exported operations: three codecs, two directions, two calling modes.

use vstd::prelude::*;
use vstd::string::*;

verus! {

/// The stream format an operation works in. It is fixed by the operation that
/// was called and never chosen by a caller's argument.
#[derive(Debug, Clone, Copy, PartialEq, Eq, Hash, Structural)]
pub enum Codec {
    Gzip,
    Deflate,
    Zlib,
}

/// Whether an operation compresses or decompresses.
#[derive(Debug, Clone, Copy, PartialEq, Eq, Hash, Structural)]
pub enum Direction {
    Compress,
    Decompress,
}

/// How an operation hands back its result.
#[derive(Debug, Clone, Copy, PartialEq, Eq, Hash, Structural)]
pub enum Mode {
    /// The codec runs on the calling thread and the result is returned inline.
    Blocking,
    /// The codec runs on a worker and the result settles a future.
    NonBlocking,
}

/// One exported operation.
#[derive(Debug, Clone, Copy, PartialEq, Eq, Hash, Structural)]
pub struct Operation {
    pub codec: Codec,
    pub direction: Direction,
    pub mode: Mode,
}

impl Direction {
    /// The word an export name starts with.
    pub open spec fn word(self) -> Seq<char> {
        match self {
            Direction::Compress => "compress"@,
            Direction::Decompress => "decompress"@,
        }
    }
}

impl Codec {
    /// The word an export name carries for the codec.
    pub open spec fn word(self) -> Seq<char> {
        match self {
            Codec::Gzip => "Gzip"@,
            Codec::Deflate => "Deflate"@,
            Codec::Zlib => "Zlib"@,
        }
    }
}

impl Mode {
    /// What an export name ends with.
    pub open spec fn suffix(self) -> Seq<char> {
        match self {
            Mode::Blocking => Seq::empty(),
            Mode::NonBlocking => "Async"@,
        }
    }
}

/// The sequence in which the operations are exported: the blocking ones
/// first, codec by codec, compress before decompress.
pub open spec fn export_order() -> Seq<Operation> {
    seq![
        Operation::of(Codec::Gzip, Direction::Compress, Mode::Blocking),
        Operation::of(Codec::Gzip, Direction::Decompress, Mode::Blocking),
        Operation::of(Codec::Deflate, Direction::Compress, Mode::Blocking),
        Operation::of(Codec::Deflate, Direction::Decompress, Mode::Blocking),
        Operation::of(Codec::Zlib, Direction::Compress, Mode::Blocking),
        Operation::of(Codec::Zlib, Direction::Decompress, Mode::Blocking),
        Operation::of(Codec::Gzip, Direction::Compress, Mode::NonBlocking),
        Operation::of(Codec::Gzip, Direction::Decompress, Mode::NonBlocking),
        Operation::of(Codec::Deflate, Direction::Compress, Mode::NonBlocking),
        Operation::of(Codec::Deflate, Direction::Decompress, Mode::NonBlocking),
        Operation::of(Codec::Zlib, Direction::Compress, Mode::NonBlocking),
        Operation::of(Codec::Zlib, Direction::Decompress, Mode::NonBlocking),
    ]
}

/// How many operations are exported.
pub const OPERATION_COUNT: usize = 12;

impl Operation {
    /// The operation with the given parts.
    pub open spec fn of(codec: Codec, direction: Direction, mode: Mode) -> Operation {
        Operation { codec, direction, mode }
    }

    /// The name under which the operation is exported.
    pub open spec fn exported_as(self) -> Seq<char> {
        self.direction.word() + self.codec.word() + self.mode.suffix()
    }

    /// The operation with the given parts.
    pub fn new(codec: Codec, direction: Direction, mode: Mode) -> (op: Operation)
        ensures
            op == Operation::of(codec, direction, mode),
    {
        Operation { codec, direction, mode }
    }

    /// The name under which the operation is exported, such as
    /// `compressGzip` or `decompressZlibAsync`.
    pub fn export_name(&self) -> (name: String)
        ensures
            name@ == self.exported_as(),
    {
        let mut name = String::from_str(
            match self.direction {
                Direction::Compress => "compress",
                Direction::Decompress => "decompress",
            },
        );
        name.append(
            match self.codec {
                Codec::Gzip => "Gzip",
                Codec::Deflate => "Deflate",
                Codec::Zlib => "Zlib",
            },
        );
        match self.mode {
            Mode::Blocking => {},
            Mode::NonBlocking => {
                name.append("Async");
            },
        }
        name
    }

    /// The operation at a place in the export order, if the place exists.
    pub fn at_slot(slot: usize) -> (found: Option<Operation>)
        ensures
            slot < OPERATION_COUNT ==> found == Some(export_order()[slot as int]),
            slot >= OPERATION_COUNT ==> found is None,
    {
        if slot >= OPERATION_COUNT {
            return None;
        }
        let within: usize = slot % 6;
        let codec = if within < 2 {
            Codec::Gzip
        } else if within < 4 {
            Codec::Deflate
        } else {
            Codec::Zlib
        };
        let direction = if slot % 2 == 0 {
            Direction::Compress
        } else {
            Direction::Decompress
        };
        let mode = if slot < 6 {
            Mode::Blocking
        } else {
            Mode::NonBlocking
        };
        Some(Operation { codec, direction, mode })
    }
}

/// Every operation, in export order.
pub fn all_operations() -> (operations: Vec<Operation>)
    ensures
        operations@ == export_order(),
{
    let mut operations: Vec<Operation> = Vec::new();
    let mut slot: usize = 0;
    while slot < OPERATION_COUNT
        invariant
            slot <= OPERATION_COUNT,
            operations@ == export_order().take(slot as int),
        decreases OPERATION_COUNT - slot,
    {
        match Operation::at_slot(slot) {
            Some(op) => {
                operations.push(op);
            },
            None => {},
        }
        slot += 1;
    }
    operations
}

/// The export order lists every operation, each exactly once.
pub proof fn lemma_export_order_is_exact(op: Operation)
    ensures
        export_order().len() == OPERATION_COUNT,
        export_order().no_duplicates(),
        export_order().contains(op),
{
    let order = export_order();
    let slot: int = (match op.mode {
        Mode::Blocking => 0int,
        Mode::NonBlocking => 6int,
    }) + (match op.codec {
        Codec::Gzip => 0int,
        Codec::Deflate => 2int,
        Codec::Zlib => 4int,
    }) + (match op.direction {
        Direction::Compress => 0int,
        Direction::Decompress => 1int,
    });
    assert(order[slot] == op);
}

/// No two operations share an export name.
pub proof fn lemma_export_names_are_distinct(a: Operation, b: Operation)
    requires
        a.exported_as() == b.exported_as(),
    ensures
        a == b,
{
    reveal_strlit("compress");
    reveal_strlit("decompress");
    reveal_strlit("Gzip");
    reveal_strlit("Deflate");
    reveal_strlit("Zlib");
    reveal_strlit("Async");
    let x = a.exported_as();
    let y = b.exported_as();
    assert(x[0] == y[0]);
    assert(a.direction == b.direction);
    let at: int = a.direction.word().len() as int;
    assert(x[at] == y[at]);
    assert(a.codec == b.codec);
    assert(x.len() == y.len());
}

} // verus!
