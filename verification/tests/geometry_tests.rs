use impressy::raster::Raster;
use impressy::slice::{slice, SliceGrid};
use impressy::transform::{crop, rotate, AspectRatio, CropRect, Rotation, PRESET_COUNT};

fn filled(width: u32, height: u32, rgba: [u8; 4]) -> Raster {
    let mut pixels = Vec::new();
    for _ in 0..width * height {
        pixels.extend_from_slice(&rgba);
    }
    Raster { width, height, pixels }
}

fn patterned(width: u32, height: u32) -> Raster {
    let mut pixels = Vec::new();
    for index in 0..width * height * 4 {
        pixels.push((index % 253) as u8);
    }
    Raster { width, height, pixels }
}

#[test]
fn rotate_360_is_identity() {
    for (w, h) in [(1u32, 1u32), (3, 5), (24, 7), (16, 16)] {
        let img = patterned(w, h);
        let mut r = rotate(&img, Rotation::Cw90);
        r = rotate(&r, Rotation::Cw90);
        r = rotate(&r, Rotation::Cw90);
        r = rotate(&r, Rotation::Cw90);
        assert_eq!(img, r);
    }
}

#[test]
fn prop_crop_aspect_ratio_exact() {
    for w in (20u32..64).step_by(7) {
        for h in (20u32..64).step_by(5) {
            let img = filled(w, h, [10, 20, 30, 255]);
            for index in 0..PRESET_COUNT {
                let ratio: AspectRatio = AspectRatio::preset(index).unwrap();
                if let Ok(rect) = CropRect::largest_centered(w, h, ratio) {
                    let cropped = crop(&img, rect).expect("crop");
                    assert_eq!(cropped.width * ratio.height, cropped.height * ratio.width);
                }
            }
        }
    }
}

#[test]
fn prop_slice_tile_count() {
    for (w, h) in [(3u32, 3u32), (7, 39), (39, 4), (20, 20)] {
        for r in 1u32..5 {
            for c in 1u32..5 {
                let img = filled(w, h, [1, 2, 3, 255]);
                if w >= c && h >= r {
                    let grid = SliceGrid::new(r, c).expect("grid");
                    let tiles = slice(&img, grid).expect("slice");
                    assert_eq!(tiles.len(), (r * c) as usize);
                    let mut indices: Vec<u32> = tiles.iter().map(|t| t.index).collect();
                    indices.sort_unstable();
                    assert_eq!(indices, (0..r * c).collect::<Vec<_>>());
                }
            }
        }
    }
}
