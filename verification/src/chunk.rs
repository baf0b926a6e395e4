//! Chunk data and its wire encoding: the pre-chunk announcement packet and
//! the map-chunk packet, whose payload is the four block arrays concatenated
//! and deflate-compressed with a zlib wrapper at level 6.

use vstd::prelude::*;

use crate::channel::PacketSerializer;
use crate::codec::{be_i16_bytes, be_i32_bytes};
use crate::error::Error;
use crate::packets;

verus! {

/// A 16 x 128 x 16 column of world block data addressed by (x, z) grid
/// coordinates. The four byte arrays hold one byte per block position,
/// flattened in a fixed x, z, y order; a full chunk has 32768 entries in
/// each. `height_map` is reserved and unused.
#[derive(Debug, Clone, PartialEq)]
pub struct Chunk {
    pub x: i32,
    pub z: i32,
    pub blocks: Vec<u8>,
    pub data: Vec<u8>,
    pub sky_light: Vec<u8>,
    pub block_light: Vec<u8>,
    pub height_map: Vec<u8>,
}

/// The number of block positions in a full chunk: 16 x 16 x 128.
pub const CHUNK_VOLUME: usize = 32768;

/// A full chunk keeps all four block arrays at equal length 32768.
pub open spec fn chunk_well_formed(c: Chunk) -> bool {
    &&& c.blocks@.len() == CHUNK_VOLUME
    &&& c.data@.len() == CHUNK_VOLUME
    &&& c.block_light@.len() == CHUNK_VOLUME
    &&& c.sky_light@.len() == CHUNK_VOLUME
}

/// The bytes the map-chunk payload compresses: blocks, then data, then
/// block light, then sky light.
pub open spec fn chunk_payload(c: Chunk) -> Seq<u8> {
    c.blocks@ + c.data@ + c.block_light@ + c.sky_light@
}

/// The bytes that deflate-compressing `data` at the given level inside a
/// zlib wrapper yields: a function of the input bytes and the level alone.
pub uninterp spec fn zlib_deflate_of(data: Seq<u8>, level: u8) -> Seq<u8>;

/// Relies on `miniz_oxide::deflate::compress_to_vec_zlib`: it compresses the
/// input deterministically, so the result is a function of the input bytes
/// and the compression level alone.
#[verifier::external_body]
fn compress_zlib(data: &[u8], level: u8) -> (r: Vec<u8>)
    ensures
        r@ == zlib_deflate_of(data@, level),
{
    miniz_oxide::deflate::compress_to_vec_zlib(data, level)
}

/// The pre-chunk announcement packet: chunk x and z, then mode byte 1 (load).
pub open spec fn pre_chunk_bytes(x: i32, z: i32) -> Seq<u8> {
    seq![packets::PRE_CHUNK] + be_i32_bytes(x) + be_i32_bytes(z) + seq![1u8]
}

/// The map-chunk packet: world-space origin (chunk coordinates times 16,
/// height 0), the fixed extents 15, 127, 15 (volume minus one convention),
/// then the compressed payload length and bytes.
pub open spec fn map_chunk_bytes(c: Chunk) -> Seq<u8>
    recommends
        -0x8000000 <= c.x < 0x8000000,
        -0x8000000 <= c.z < 0x8000000,
        zlib_deflate_of(chunk_payload(c), 6).len() <= 0x7fffffff,
{
    let comp = zlib_deflate_of(chunk_payload(c), 6);
    seq![packets::MAP_CHUNK] + be_i32_bytes((c.x * 16) as i32) + be_i16_bytes(0)
        + be_i32_bytes((c.z * 16) as i32) + seq![15u8, 127u8, 15u8]
        + be_i32_bytes(comp.len() as i32) + comp
}

/// Builds the synthetic spawn chunk at grid (1, 1): a flat all-zero block
/// column with both light arrays at full brightness 15 and an empty
/// reserved height map.
pub fn spawn_chunk() -> (c: Chunk)
    ensures
        c.x == 1,
        c.z == 1,
        chunk_well_formed(c),
        forall|i: int| 0 <= i < CHUNK_VOLUME ==> c.blocks@[i] == 0u8,
        forall|i: int| 0 <= i < CHUNK_VOLUME ==> c.data@[i] == 0u8,
        forall|i: int| 0 <= i < CHUNK_VOLUME ==> c.block_light@[i] == 15u8,
        forall|i: int| 0 <= i < CHUNK_VOLUME ==> c.sky_light@[i] == 15u8,
        c.height_map@.len() == 0,
{
    let mut blocks: Vec<u8> = Vec::new();
    let mut data: Vec<u8> = Vec::new();
    let mut block_light: Vec<u8> = Vec::new();
    let mut sky_light: Vec<u8> = Vec::new();
    let mut n: usize = 0;
    while n < CHUNK_VOLUME
        invariant
            n <= CHUNK_VOLUME,
            blocks@.len() == n,
            data@.len() == n,
            block_light@.len() == n,
            sky_light@.len() == n,
            forall|i: int| 0 <= i < n ==> blocks@[i] == 0u8,
            forall|i: int| 0 <= i < n ==> data@[i] == 0u8,
            forall|i: int| 0 <= i < n ==> block_light@[i] == 15u8,
            forall|i: int| 0 <= i < n ==> sky_light@[i] == 15u8,
        decreases CHUNK_VOLUME - n,
    {
        blocks.push(0);
        data.push(0);
        block_light.push(15);
        sky_light.push(15);
        n = n + 1;
    }
    Chunk { x: 1, z: 1, blocks, data, sky_light, block_light, height_map: Vec::new() }
}

impl PacketSerializer {
    /// Encodes a chunk onto the outbound buffer: the pre-chunk announcement,
    /// then the map-chunk packet with the deflate-compressed payload. A
    /// compressed payload longer than an i32 holds does not fit the length
    /// field and is rejected, with only the announcement written.
    pub fn write_chunk(&mut self, chunk: Chunk) -> (r: Result<(), Error>)
        requires
            -0x8000000 <= chunk.x < 0x8000000,
            -0x8000000 <= chunk.z < 0x8000000,
        ensures
            match r {
                Ok(()) => {
                    &&& zlib_deflate_of(chunk_payload(chunk), 6).len() <= 0x7fffffff
                    &&& final(self).input == old(self).input
                    &&& final(self).pos == old(self).pos
                    &&& final(self).output@ == old(self).output@ + pre_chunk_bytes(
                        chunk.x,
                        chunk.z,
                    ) + map_chunk_bytes(chunk)
                },
                Err(e) => {
                    &&& zlib_deflate_of(chunk_payload(chunk), 6).len() > 0x7fffffff
                    &&& e is BitsError
                    &&& final(self).input == old(self).input
                    &&& final(self).pos == old(self).pos
                    &&& final(self).output@ == old(self).output@ + pre_chunk_bytes(
                        chunk.x,
                        chunk.z,
                    )
                },
            },
    {
        self.write_u8(packets::PRE_CHUNK);
        self.write_be_i32(chunk.x);
        self.write_be_i32(chunk.z);
        self.write_u8(0x01);
        assert(self.output@ =~= old(self).output@ + pre_chunk_bytes(chunk.x, chunk.z));

        let x = chunk.x * 16;
        let y: i16 = 0;
        let z = chunk.z * 16;

        let mut to_compress: Vec<u8> = Vec::new();
        crate::channel::append_bytes(&mut to_compress, chunk.blocks.as_slice());
        crate::channel::append_bytes(&mut to_compress, chunk.data.as_slice());
        crate::channel::append_bytes(&mut to_compress, chunk.block_light.as_slice());
        crate::channel::append_bytes(&mut to_compress, chunk.sky_light.as_slice());
        assert(to_compress@ =~= chunk_payload(chunk));

        let compressed = compress_zlib(to_compress.as_slice(), 6);
        if compressed.len() > 0x7fffffff {
            return Err(
                Error::BitsError { message: "compressed chunk exceeds the i32 length field".to_owned() },
            );
        }
        self.write_u8(packets::MAP_CHUNK);
        self.write_be_i32(x);
        self.write_be_i16(y);
        self.write_be_i32(z);

        self.write_u8(15);
        self.write_u8(127);
        self.write_u8(15);

        self.write_be_i32(compressed.len() as i32);
        self.write_all_bytes(compressed.as_slice());
        assert(self.output@ =~= old(self).output@ + pre_chunk_bytes(chunk.x, chunk.z)
            + map_chunk_bytes(chunk));
        Ok(())
    }
}

} // verus!
