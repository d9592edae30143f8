//! The fourteen entry points of the engine.

use vstd::prelude::*;

verus! {

/// How many entry points the engine exports.
pub const OPERATION_COUNT: usize = 14;

/// One of the engine's exported entry points.
///
/// The variants are listed in the order in which their symbols are resolved.
#[derive(Clone, Copy, Debug, PartialEq, Eq, Structural)]
pub enum Operation {
    Create,
    Delete,
    GetCreatorInfo,
    GetInfo,
    GetInfoFromBuffer,
    GetSliceInfo,
    InitializeDLL,
    RenderPreviewBatch,
    RenderSlice,
    SetOutputSampleRate,
    SetPreviewTempo,
    StartPreview,
    StopPreview,
    UninitializeDLL,
}

impl Operation {
    /// Position of the entry point in resolution order.
    pub open spec fn spec_index(self) -> nat {
        match self {
            Operation::Create => 0,
            Operation::Delete => 1,
            Operation::GetCreatorInfo => 2,
            Operation::GetInfo => 3,
            Operation::GetInfoFromBuffer => 4,
            Operation::GetSliceInfo => 5,
            Operation::InitializeDLL => 6,
            Operation::RenderPreviewBatch => 7,
            Operation::RenderSlice => 8,
            Operation::SetOutputSampleRate => 9,
            Operation::SetPreviewTempo => 10,
            Operation::StartPreview => 11,
            Operation::StopPreview => 12,
            Operation::UninitializeDLL => 13,
        }
    }

    /// The entry point at a position, if the position is below
    /// [`OPERATION_COUNT`].
    pub open spec fn spec_from_index(i: int) -> Option<Operation> {
        if i == 0 {
            Some(Operation::Create)
        } else if i == 1 {
            Some(Operation::Delete)
        } else if i == 2 {
            Some(Operation::GetCreatorInfo)
        } else if i == 3 {
            Some(Operation::GetInfo)
        } else if i == 4 {
            Some(Operation::GetInfoFromBuffer)
        } else if i == 5 {
            Some(Operation::GetSliceInfo)
        } else if i == 6 {
            Some(Operation::InitializeDLL)
        } else if i == 7 {
            Some(Operation::RenderPreviewBatch)
        } else if i == 8 {
            Some(Operation::RenderSlice)
        } else if i == 9 {
            Some(Operation::SetOutputSampleRate)
        } else if i == 10 {
            Some(Operation::SetPreviewTempo)
        } else if i == 11 {
            Some(Operation::StartPreview)
        } else if i == 12 {
            Some(Operation::StopPreview)
        } else if i == 13 {
            Some(Operation::UninitializeDLL)
        } else {
            None
        }
    }

    /// The name under which the engine exports the entry point.
    pub open spec fn spec_symbol(self) -> Seq<char> {
        match self {
            Operation::Create => "REXCreate"@,
            Operation::Delete => "REXDelete"@,
            Operation::GetCreatorInfo => "REXGetCreatorInfo"@,
            Operation::GetInfo => "REXGetInfo"@,
            Operation::GetInfoFromBuffer => "REXGetInfoFromBuffer"@,
            Operation::GetSliceInfo => "REXGetSliceInfo"@,
            Operation::InitializeDLL => "REXInitializeDLL"@,
            Operation::RenderPreviewBatch => "REXRenderPreviewBatch"@,
            Operation::RenderSlice => "REXRenderSlice"@,
            Operation::SetOutputSampleRate => "REXSetOutputSampleRate"@,
            Operation::SetPreviewTempo => "REXSetPreviewTempo"@,
            Operation::StartPreview => "REXStartPreview"@,
            Operation::StopPreview => "REXStopPreview"@,
            Operation::UninitializeDLL => "REXUninitializeDLL"@,
        }
    }

    pub fn index(self) -> (i: usize)
        ensures
            i == self.spec_index(),
            i < OPERATION_COUNT,
    {
        match self {
            Operation::Create => 0,
            Operation::Delete => 1,
            Operation::GetCreatorInfo => 2,
            Operation::GetInfo => 3,
            Operation::GetInfoFromBuffer => 4,
            Operation::GetSliceInfo => 5,
            Operation::InitializeDLL => 6,
            Operation::RenderPreviewBatch => 7,
            Operation::RenderSlice => 8,
            Operation::SetOutputSampleRate => 9,
            Operation::SetPreviewTempo => 10,
            Operation::StartPreview => 11,
            Operation::StopPreview => 12,
            Operation::UninitializeDLL => 13,
        }
    }

    pub fn from_index(i: usize) -> (op: Option<Operation>)
        ensures
            op == Self::spec_from_index(i as int),
            op is Some <==> i < OPERATION_COUNT,
            op matches Some(o) ==> o.spec_index() == i,
    {
        match i {
            0 => Some(Operation::Create),
            1 => Some(Operation::Delete),
            2 => Some(Operation::GetCreatorInfo),
            3 => Some(Operation::GetInfo),
            4 => Some(Operation::GetInfoFromBuffer),
            5 => Some(Operation::GetSliceInfo),
            6 => Some(Operation::InitializeDLL),
            7 => Some(Operation::RenderPreviewBatch),
            8 => Some(Operation::RenderSlice),
            9 => Some(Operation::SetOutputSampleRate),
            10 => Some(Operation::SetPreviewTempo),
            11 => Some(Operation::StartPreview),
            12 => Some(Operation::StopPreview),
            13 => Some(Operation::UninitializeDLL),
            _ => None,
        }
    }

    pub fn symbol(self) -> (name: &'static str)
        ensures
            name@ == self.spec_symbol(),
    {
        match self {
            Operation::Create => "REXCreate",
            Operation::Delete => "REXDelete",
            Operation::GetCreatorInfo => "REXGetCreatorInfo",
            Operation::GetInfo => "REXGetInfo",
            Operation::GetInfoFromBuffer => "REXGetInfoFromBuffer",
            Operation::GetSliceInfo => "REXGetSliceInfo",
            Operation::InitializeDLL => "REXInitializeDLL",
            Operation::RenderPreviewBatch => "REXRenderPreviewBatch",
            Operation::RenderSlice => "REXRenderSlice",
            Operation::SetOutputSampleRate => "REXSetOutputSampleRate",
            Operation::SetPreviewTempo => "REXSetPreviewTempo",
            Operation::StartPreview => "REXStartPreview",
            Operation::StopPreview => "REXStopPreview",
            Operation::UninitializeDLL => "REXUninitializeDLL",
        }
    }
}

/// Every operation has a place in the resolution order, below the number of
/// operations, and is the operation found at that place.
pub proof fn law_index_round_trip(operation: Operation)
    ensures
        operation.spec_index() < OPERATION_COUNT,
        Operation::spec_from_index(operation.spec_index() as int) == Some(operation),
{
}

/// Every place below the number of operations holds an operation, and no
/// other place does.
pub proof fn law_places_are_the_operations(i: int)
    ensures
        0 <= i < OPERATION_COUNT <==> Operation::spec_from_index(i) is Some,
        Operation::spec_from_index(i) matches Some(operation) ==> operation.spec_index() == i,
{
}

/// No two operations share a symbol: the table can be keyed by name.
pub proof fn law_symbols_are_distinct(a: Operation, b: Operation)
    requires
        a != b,
    ensures
        a.spec_symbol() != b.spec_symbol(),
{
    reveal_strlit("REXCreate");
    reveal_strlit("REXDelete");
    reveal_strlit("REXGetCreatorInfo");
    reveal_strlit("REXGetInfo");
    reveal_strlit("REXGetInfoFromBuffer");
    reveal_strlit("REXGetSliceInfo");
    reveal_strlit("REXInitializeDLL");
    reveal_strlit("REXRenderPreviewBatch");
    reveal_strlit("REXRenderSlice");
    reveal_strlit("REXSetOutputSampleRate");
    reveal_strlit("REXSetPreviewTempo");
    reveal_strlit("REXStartPreview");
    reveal_strlit("REXStopPreview");
    reveal_strlit("REXUninitializeDLL");
    // Two symbols differ in their length or in the letter after `REX`.
    assert(a.spec_symbol().len() != b.spec_symbol().len() || a.spec_symbol()[3]
        != b.spec_symbol()[3]);
}

} // verus!
