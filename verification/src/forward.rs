//! One forwarding function for each entry point of the engine.
//!
//! Every function here does the same thing: it looks up the address its
//! operation resolved to and hands the call over, with the arguments it was
//! given, in the order it was given them, and gives back what came back.
//! Nothing is inspected, copied, retried or reinterpreted. Pointers travel as
//! plain addresses and are never looked behind.
//!
//! The jump to the foreign address is the caller's: each function takes it
//! as `entry`, which is called with the resolved address first and the
//! arguments after it. An `entry` can be called once and no more, so no call
//! is ever made twice.
//!
//! A forwarding function needs the table, and a table exists only when every
//! symbol has been resolved: nothing is forwarded before the shim is ready.

#![allow(non_snake_case)]

use crate::operation::Operation;
use crate::table::SymbolTable;
use vstd::prelude::*;

verus! {

/// Constructs an instance from a buffer of `size` bytes; `handle` is where
/// the engine stores the new instance, `callback_fn` and `user_data` are its
/// progress callback and what is passed to it.
pub fn REXCreate<F: FnOnce(usize, usize, usize, i32, usize, usize) -> i32>(
    table: &SymbolTable,
    handle: usize,
    buffer: usize,
    size: i32,
    callback_fn: usize,
    user_data: usize,
    entry: F,
) -> (status: i32)
    requires
        call_requires(
            entry,
            (
                table.spec_address(Operation::Create),
                handle,
                buffer,
                size,
                callback_fn,
                user_data,
            ),
        ),
    ensures
        call_ensures(
            entry,
            (
                table.spec_address(Operation::Create),
                handle,
                buffer,
                size,
                callback_fn,
                user_data,
            ),
            status,
        ),
{
    let target: usize = table.address(Operation::Create);
    entry(target, handle, buffer, size, callback_fn, user_data)
}

/// Destroys an instance.
pub fn REXDelete<F: FnOnce(usize, usize) -> i32>(
    table: &SymbolTable,
    handle: usize,
    entry: F,
) -> (status: i32)
    requires
        call_requires(entry, (table.spec_address(Operation::Delete), handle)),
    ensures
        call_ensures(entry, (table.spec_address(Operation::Delete), handle), status),
{
    let target: usize = table.address(Operation::Delete);
    entry(target, handle)
}

/// Fetches what is known of the tool that made the loaded content into the
/// caller's buffer at `info`.
pub fn REXGetCreatorInfo<F: FnOnce(usize, usize, i32, usize) -> i32>(
    table: &SymbolTable,
    handle: usize,
    creator_info_size: i32,
    info: usize,
    entry: F,
) -> (status: i32)
    requires
        call_requires(
            entry,
            (
                table.spec_address(Operation::GetCreatorInfo),
                handle,
                creator_info_size,
                info,
            ),
        ),
    ensures
        call_ensures(
            entry,
            (
                table.spec_address(Operation::GetCreatorInfo),
                handle,
                creator_info_size,
                info,
            ),
            status,
        ),
{
    let target: usize = table.address(Operation::GetCreatorInfo);
    entry(target, handle, creator_info_size, info)
}

/// Fetches the general information of an instance into the caller's buffer
/// at `info`.
pub fn REXGetInfo<F: FnOnce(usize, usize, i32, usize) -> i32>(
    table: &SymbolTable,
    handle: usize,
    info_size: i32,
    info: usize,
    entry: F,
) -> (status: i32)
    requires
        call_requires(entry, (table.spec_address(Operation::GetInfo), handle, info_size, info)),
    ensures
        call_ensures(
            entry,
            (
                table.spec_address(Operation::GetInfo),
                handle,
                info_size,
                info,
            ),
            status,
        ),
{
    let target: usize = table.address(Operation::GetInfo);
    entry(target, handle, info_size, info)
}

/// Fetches general information straight from a raw buffer, without an
/// instance.
pub fn REXGetInfoFromBuffer<F: FnOnce(usize, i32, usize, i32, usize) -> i32>(
    table: &SymbolTable,
    buffer_size: i32,
    buffer: usize,
    info_size: i32,
    info: usize,
    entry: F,
) -> (status: i32)
    requires
        call_requires(
            entry,
            (
                table.spec_address(Operation::GetInfoFromBuffer),
                buffer_size,
                buffer,
                info_size,
                info,
            ),
        ),
    ensures
        call_ensures(
            entry,
            (
                table.spec_address(Operation::GetInfoFromBuffer),
                buffer_size,
                buffer,
                info_size,
                info,
            ),
            status,
        ),
{
    let target: usize = table.address(Operation::GetInfoFromBuffer);
    entry(target, buffer_size, buffer, info_size, info)
}

/// Fetches the information of one slice into the caller's buffer at `info`.
pub fn REXGetSliceInfo<F: FnOnce(usize, usize, i32, i32, usize) -> i32>(
    table: &SymbolTable,
    handle: usize,
    slice_index: i32,
    slice_info_size: i32,
    info: usize,
    entry: F,
) -> (status: i32)
    requires
        call_requires(
            entry,
            (
                table.spec_address(Operation::GetSliceInfo),
                handle,
                slice_index,
                slice_info_size,
                info,
            ),
        ),
    ensures
        call_ensures(
            entry,
            (
                table.spec_address(Operation::GetSliceInfo),
                handle,
                slice_index,
                slice_info_size,
                info,
            ),
            status,
        ),
{
    let target: usize = table.address(Operation::GetSliceInfo);
    entry(target, handle, slice_index, slice_info_size, info)
}

/// Initializes the engine.
pub fn REXInitializeDLL<F: FnOnce(usize) -> i32>(
    table: &SymbolTable,
    entry: F,
) -> (status: i32)
    requires
        call_requires(entry, (table.spec_address(Operation::InitializeDLL),)),
    ensures
        call_ensures(entry, (table.spec_address(Operation::InitializeDLL),), status),
{
    let target: usize = table.address(Operation::InitializeDLL);
    entry(target)
}

/// Renders a batch of preview frames into the caller's buffers.
pub fn REXRenderPreviewBatch<F: FnOnce(usize, usize, i32, usize) -> i32>(
    table: &SymbolTable,
    handle: usize,
    frames_to_render: i32,
    output_buffers: usize,
    entry: F,
) -> (status: i32)
    requires
        call_requires(
            entry,
            (
                table.spec_address(Operation::RenderPreviewBatch),
                handle,
                frames_to_render,
                output_buffers,
            ),
        ),
    ensures
        call_ensures(
            entry,
            (
                table.spec_address(Operation::RenderPreviewBatch),
                handle,
                frames_to_render,
                output_buffers,
            ),
            status,
        ),
{
    let target: usize = table.address(Operation::RenderPreviewBatch);
    entry(target, handle, frames_to_render, output_buffers)
}

/// Renders one slice into the caller's buffer at `output`.
pub fn REXRenderSlice<F: FnOnce(usize, usize, i32, i32, usize) -> i32>(
    table: &SymbolTable,
    handle: usize,
    index: i32,
    frame_length: i32,
    output: usize,
    entry: F,
) -> (status: i32)
    requires
        call_requires(
            entry,
            (
                table.spec_address(Operation::RenderSlice),
                handle,
                index,
                frame_length,
                output,
            ),
        ),
    ensures
        call_ensures(
            entry,
            (
                table.spec_address(Operation::RenderSlice),
                handle,
                index,
                frame_length,
                output,
            ),
            status,
        ),
{
    let target: usize = table.address(Operation::RenderSlice);
    entry(target, handle, index, frame_length, output)
}

/// Sets the output sample rate of an instance.
pub fn REXSetOutputSampleRate<F: FnOnce(usize, usize, i32) -> i32>(
    table: &SymbolTable,
    handle: usize,
    sample_rate: i32,
    entry: F,
) -> (status: i32)
    requires
        call_requires(
            entry,
            (
                table.spec_address(Operation::SetOutputSampleRate),
                handle,
                sample_rate,
            ),
        ),
    ensures
        call_ensures(
            entry,
            (
                table.spec_address(Operation::SetOutputSampleRate),
                handle,
                sample_rate,
            ),
            status,
        ),
{
    let target: usize = table.address(Operation::SetOutputSampleRate);
    entry(target, handle, sample_rate)
}

/// Sets the preview tempo of an instance.
pub fn REXSetPreviewTempo<F: FnOnce(usize, usize, i32) -> i32>(
    table: &SymbolTable,
    handle: usize,
    tempo: i32,
    entry: F,
) -> (status: i32)
    requires
        call_requires(entry, (table.spec_address(Operation::SetPreviewTempo), handle, tempo)),
    ensures
        call_ensures(
            entry,
            (
                table.spec_address(Operation::SetPreviewTempo),
                handle,
                tempo,
            ),
            status,
        ),
{
    let target: usize = table.address(Operation::SetPreviewTempo);
    entry(target, handle, tempo)
}

/// Starts the preview of an instance.
pub fn REXStartPreview<F: FnOnce(usize, usize) -> i32>(
    table: &SymbolTable,
    handle: usize,
    entry: F,
) -> (status: i32)
    requires
        call_requires(entry, (table.spec_address(Operation::StartPreview), handle)),
    ensures
        call_ensures(entry, (table.spec_address(Operation::StartPreview), handle), status),
{
    let target: usize = table.address(Operation::StartPreview);
    entry(target, handle)
}

/// Stops the preview of an instance.
pub fn REXStopPreview<F: FnOnce(usize, usize) -> i32>(
    table: &SymbolTable,
    handle: usize,
    entry: F,
) -> (status: i32)
    requires
        call_requires(entry, (table.spec_address(Operation::StopPreview), handle)),
    ensures
        call_ensures(entry, (table.spec_address(Operation::StopPreview), handle), status),
{
    let target: usize = table.address(Operation::StopPreview);
    entry(target, handle)
}

/// Tears the engine down. The engine returns nothing from this call.
pub fn REXUninitializeDLL<F: FnOnce(usize, usize)>(
    table: &SymbolTable,
    handle: usize,
    entry: F,
)
    requires
        call_requires(entry, (table.spec_address(Operation::UninitializeDLL), handle)),
    ensures
        call_ensures(entry, (table.spec_address(Operation::UninitializeDLL), handle), ()),
{
    let target: usize = table.address(Operation::UninitializeDLL);
    entry(target, handle)
}

} // verus!
