//! Byte size of a block-compressed square image with its mip chain.

use vstd::prelude::*;

verus! {

/// Bytes of the counted mip levels of a square image of edge `edge`, in
/// 4x4 blocks of `block_bytes` each: every level whose edge exceeds 4
/// contributes `(edge / 4)^2` blocks, and each next level halves the edge
/// (at least 1). Levels of edge 4 and below are not counted.
pub open spec fn mip_chain_bytes(edge: nat, block_bytes: nat) -> nat
    decreases edge,
{
    if edge <= 4 {
        0
    } else {
        let blocks = edge / 4;
        let next = if edge / 2 >= 1 { edge / 2 } else { 1 };
        blocks * blocks * block_bytes + mip_chain_bytes(next, block_bytes)
    }
}

/// The byte size of the counted mip levels (see `mip_chain_bytes`).
pub fn mip_chain_size(edge: u32, block_bytes: u32) -> (r: u32)
    requires
        mip_chain_bytes(edge as nat, block_bytes as nat) <= u32::MAX,
    ensures
        r == mip_chain_bytes(edge as nat, block_bytes as nat),
{
    let mut total: u32 = 0;
    let mut mip: u32 = edge;
    while mip > 4
        invariant
            total + mip_chain_bytes(mip as nat, block_bytes as nat) == mip_chain_bytes(
                edge as nat,
                block_bytes as nat,
            ),
            mip_chain_bytes(edge as nat, block_bytes as nat) <= u32::MAX,
        decreases mip,
    {
        let blocks: u32 = mip / 4;
        let ghost rest = mip_chain_bytes((mip / 2) as nat, block_bytes as nat);
        assert(blocks * blocks * block_bytes + rest == mip_chain_bytes(
            mip as nat,
            block_bytes as nat,
        ));
        let level: u32 = if block_bytes == 0 {
            0
        } else {
            assert(blocks * blocks <= blocks * blocks * block_bytes) by (nonlinear_arith)
                requires
                    block_bytes >= 1,
            ;
            blocks * blocks * block_bytes
        };
        total = total + level;
        let half: u32 = mip / 2;
        mip = if half >= 1 { half } else { 1 };
    }
    total
}

proof fn lemma_mip_chain_step(edge: nat, block_bytes: nat)
    requires
        edge > 4,
    ensures
        mip_chain_bytes(edge, block_bytes) == (edge / 4) * (edge / 4) * block_bytes
            + mip_chain_bytes(edge / 2, block_bytes),
{
}

/// A 2048-texel edge in 16-byte blocks needs 5592384 bytes.
pub proof fn lemma_mip_chain_2048_wide()
    ensures
        mip_chain_bytes(2048, 16) == 5592384,
{
    assert(mip_chain_bytes(4, 16) == 0);
    lemma_mip_chain_step(8, 16);
    assert(mip_chain_bytes(8, 16) == 64);
    lemma_mip_chain_step(16, 16);
    assert(mip_chain_bytes(16, 16) == 320);
    lemma_mip_chain_step(32, 16);
    assert(mip_chain_bytes(32, 16) == 1344);
    lemma_mip_chain_step(64, 16);
    assert(mip_chain_bytes(64, 16) == 5440);
    lemma_mip_chain_step(128, 16);
    assert(mip_chain_bytes(128, 16) == 21824);
    lemma_mip_chain_step(256, 16);
    assert(mip_chain_bytes(256, 16) == 87360);
    lemma_mip_chain_step(512, 16);
    assert(mip_chain_bytes(512, 16) == 349504);
    lemma_mip_chain_step(1024, 16);
    assert(mip_chain_bytes(1024, 16) == 1398080);
    lemma_mip_chain_step(2048, 16);
    assert(mip_chain_bytes(2048, 16) == 5592384);
}

/// A 2048-texel edge in 8-byte blocks needs 2796192 bytes.
pub proof fn lemma_mip_chain_2048_narrow()
    ensures
        mip_chain_bytes(2048, 8) == 2796192,
{
    assert(mip_chain_bytes(4, 8) == 0);
    lemma_mip_chain_step(8, 8);
    assert(mip_chain_bytes(8, 8) == 32);
    lemma_mip_chain_step(16, 8);
    assert(mip_chain_bytes(16, 8) == 160);
    lemma_mip_chain_step(32, 8);
    assert(mip_chain_bytes(32, 8) == 672);
    lemma_mip_chain_step(64, 8);
    assert(mip_chain_bytes(64, 8) == 2720);
    lemma_mip_chain_step(128, 8);
    assert(mip_chain_bytes(128, 8) == 10912);
    lemma_mip_chain_step(256, 8);
    assert(mip_chain_bytes(256, 8) == 43680);
    lemma_mip_chain_step(512, 8);
    assert(mip_chain_bytes(512, 8) == 174752);
    lemma_mip_chain_step(1024, 8);
    assert(mip_chain_bytes(1024, 8) == 699040);
    lemma_mip_chain_step(2048, 8);
    assert(mip_chain_bytes(2048, 8) == 2796192);
}

} // verus!
