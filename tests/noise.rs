use scene_bench::hash::{hash_noise_bits, uhash};
use scene_bench::mip::mip_chain_size;
use scene_bench::texture::{generate_texture, BlockFormat};

#[test]
fn uhash_known_values() {
    assert_eq!(uhash(0, 0), 0);
    assert_eq!(uhash(1, 0), 579038751);
    assert_eq!(uhash(0, 1), 4040494424);
    assert_eq!(uhash(12345, 678), 774951630);
    assert_eq!(uhash(u32::MAX, u32::MAX), 629233259);
}

#[test]
fn uhash_repeats_on_same_inputs() {
    for a in 0..50u32 {
        for b in [0u32, 1, 77, u32::MAX] {
            assert_eq!(uhash(a, b), uhash(a, b));
        }
    }
}

#[test]
fn hash_noise_bits_packs_coordinates() {
    assert_eq!(hash_noise_bits(5, 3, 2), uhash(5, (3 << 11) + 2));
    assert_eq!(hash_noise_bits(5, 3, 2), 1063239428);
    // the packing wraps instead of overflowing
    assert_eq!(hash_noise_bits(0, u32::MAX, 5), 2273922861);
}

#[test]
fn mip_chain_size_2048_wide() {
    let mut expected = 0u32;
    let mut edge = 2048u32;
    while edge > 4 {
        expected += (edge / 4) * (edge / 4) * 16;
        edge /= 2;
    }
    assert_eq!(expected, 5592384);
    assert_eq!(mip_chain_size(2048, 16), expected);
}

#[test]
fn mip_chain_size_2048_narrow() {
    assert_eq!(mip_chain_size(2048, 8), 2796192);
}

#[test]
fn mip_chain_size_small_edges() {
    assert_eq!(mip_chain_size(8, 16), 64);
    assert_eq!(mip_chain_size(16, 16), 320);
    assert_eq!(mip_chain_size(4, 16), 0);
    assert_eq!(mip_chain_size(0, 16), 0);
    // sub-levels floor: 12 -> 3x3 blocks, 6 -> 1x1 block, then 3 stops
    assert_eq!(mip_chain_size(12, 16), 160);
}

#[test]
fn generate_texture_wide() {
    let t = generate_texture(8, false, 7);
    assert_eq!(t.edge, 8);
    assert_eq!(t.format, BlockFormat::Bc7RgbaUnormSrgb);
    assert_eq!(t.data.len(), 64);
    assert_eq!(&t.data[..8], &[98u8, 63, 63, 23, 176, 84, 8, 150]);
    for (i, b) in t.data.iter().enumerate() {
        assert_eq!(*b, uhash(i as u32, 7) as u8);
    }
}

#[test]
fn generate_texture_narrow() {
    let t = generate_texture(16, true, 3);
    assert_eq!(t.format, BlockFormat::Bc4RUnorm);
    assert_eq!(t.data.len(), 160);
    assert_eq!(t.data.len() as u32, mip_chain_size(16, 8));
    for (i, b) in t.data.iter().enumerate() {
        assert_eq!(*b, uhash(i as u32, 3) as u8);
    }
}

#[test]
fn generate_texture_seed_changes_content() {
    let a = generate_texture(8, false, 1);
    let b = generate_texture(8, false, 2);
    assert_ne!(a.data, b.data);
    assert_eq!(BlockFormat::Bc4RUnorm.block_bytes(), 8);
    assert_eq!(BlockFormat::Bc7RgbaUnormSrgb.block_bytes(), 16);
}
