use simple_nerf_dataset::dataset::{
    DataError, DistanceRange, ImageArray, Pose, PoseArray, SimpleNerfDataset,
    SimpleNerfDatasetConfig,
};
use simple_nerf_dataset::grids::Coord3;

fn bits(x: f32) -> u32 {
    x.to_bits()
}

fn gray_images(n: usize, h: usize, w: usize) -> ImageArray {
    let pixel = vec![bits(0.5), bits(0.25), bits(0.75)];
    ImageArray { count: n, h, w, c: 3, value: vec![vec![vec![pixel; w]; h]; n] }
}

fn identity_pose(tx: f32, ty: f32, tz: f32) -> Pose {
    Pose {
        value: vec![
            vec![bits(1.0), bits(0.0), bits(0.0), bits(tx)],
            vec![bits(0.0), bits(1.0), bits(0.0), bits(ty)],
            vec![bits(0.0), bits(0.0), bits(1.0), bits(tz)],
        ],
    }
}

fn identity_poses(n: usize) -> PoseArray {
    let mut value = Vec::new();
    for i in 0..n {
        value.push(identity_pose(i as f32, 0.0, 1.0));
    }
    PoseArray { value }
}

fn load(
    n: usize,
    h: usize,
    w: usize,
    points_per_ray: usize,
    start: f32,
    end: f32,
    focal: f32,
) -> SimpleNerfDataset {
    let config = SimpleNerfDatasetConfig {
        points_per_ray,
        distance_range: DistanceRange { start: bits(start), end: bits(end) },
    };
    config
        .init_from_arrays(bits(focal), &gray_images(n, h, w), &identity_poses(n))
        .unwrap()
}

#[test]
fn output_shape() {
    let config = SimpleNerfDatasetConfig {
        points_per_ray: 7,
        distance_range: DistanceRange { start: bits(2.0), end: bits(6.0) },
    };
    let dataset =
        config.init_from_arrays(bits(50.0), &gray_images(106, 100, 100), &identity_poses(106));
    assert!(dataset.is_ok());

    let dataset = dataset.unwrap();
    let item = dataset.get(0);
    assert!(item.is_some());

    let item = item.unwrap();
    assert_eq!(item.directions.dims(), [100, 100, 7, 3]);
    assert_eq!(item.distances.dims(), [100, 100, 7, 1]);
    assert_eq!(item.image.dims(), [100, 100, 3]);
    assert_eq!(item.positions.dims(), [100, 100, 7, 3]);
    assert_eq!(item.positions.dims(), item.directions.dims());

    let inners = dataset.inners;
    assert_eq!(inners.len(), 106);

    let inner = inners.get(0);
    assert!(inner.is_some());

    let inner = inner.unwrap();
    assert_eq!(inner.directions.dims(), [100, 100, 7, 3]);
    assert_eq!(inner.distances.dims(), [100, 100, 7, 1]);
    assert_eq!(inner.image.dims(), [100, 100, 3]);
    assert_eq!(inner.origins.dims(), [100, 100, 1, 3]);
}

#[test]
fn splitting() {
    let dataset = load(106, 2, 2, 8, 2.0, 6.0, 50.0);
    let datasets = dataset.split_for_training(bits(0.8));
    assert_eq!(datasets.train.len(), datasets.train.inners.len());
    assert_eq!(datasets.test.len(), datasets.test.inners.len());
    assert!(datasets.train.has_noisy_distance);
    assert!(!datasets.test.has_noisy_distance);

    let datasets = datasets.train.split_for_training(bits(1.0));
    assert_eq!(datasets.train.len(), datasets.train.inners.len());
    assert_eq!(datasets.test.len(), datasets.test.inners.len());
    assert_eq!(datasets.test.len(), 0);
    assert!(datasets.train.has_noisy_distance);
    assert!(!datasets.test.has_noisy_distance);
}

#[test]
fn lengths_after_load() {
    let dataset = load(3, 2, 2, 2, 2.0, 6.0, 1.0);
    assert_eq!(dataset.len(), 3);
    assert_eq!(dataset.len(), dataset.inners.len());
    assert!(!dataset.has_noisy_distance);
}

#[test]
fn item_shapes() {
    let dataset = load(2, 4, 3, 5, 1.0, 3.0, 2.0);
    let item = dataset.get(1).unwrap();
    assert_eq!(item.directions.dims(), [4, 3, 5, 3]);
    assert_eq!(item.distances.dims(), [4, 3, 5, 1]);
    assert_eq!(item.image.dims(), [4, 3, 3]);
    assert_eq!(item.positions.dims(), item.directions.dims());
}

#[test]
fn zero_points_per_ray() {
    let dataset = load(2, 2, 2, 0, 2.0, 6.0, 1.0);
    let item = dataset.get(0).unwrap();
    assert_eq!(item.directions.dims(), [2, 2, 0, 3]);
    assert_eq!(item.distances.dims(), [2, 2, 0, 1]);
    assert_eq!(item.positions.dims(), [2, 2, 0, 3]);
}

#[test]
fn distance_values_exact() {
    let dataset = load(1, 2, 2, 7, 2.0, 6.0, 1.0);
    let inner = &dataset.inners[0];
    let bin = (6.0f32 - 2.0) / 7.0;
    for k in 0..7 {
        let expected = (k as f32) * bin + 2.0;
        assert_eq!(inner.distances.value[0][0][k], bits(expected));
        assert_eq!(inner.distances.value[1][1][k], bits(expected));
    }
}

#[test]
fn direction_values_exact() {
    let pose = Pose {
        value: vec![
            vec![bits(1.0), bits(2.0), bits(3.0), bits(4.0)],
            vec![bits(5.0), bits(6.0), bits(7.0), bits(8.0)],
            vec![bits(9.0), bits(10.0), bits(11.0), bits(12.0)],
        ],
    };
    let config = SimpleNerfDatasetConfig {
        points_per_ray: 2,
        distance_range: DistanceRange { start: bits(2.0), end: bits(6.0) },
    };
    let focal = 2.0f32;
    let dataset = config
        .init_from_arrays(bits(focal), &gray_images(1, 2, 2), &PoseArray { value: vec![pose] })
        .unwrap();
    let inner = &dataset.inners[0];
    for r in 0..2usize {
        for c in 0..2usize {
            let px = ((c as f32) - (2.0f32 / 2.0)) / focal;
            let py = (-(r as f32) + (2.0f32 / 2.0)) / focal;
            let rows: [[f32; 3]; 3] = [[1.0, 2.0, 3.0], [5.0, 6.0, 7.0], [9.0, 10.0, 11.0]];
            let expected: Vec<u32> = rows
                .iter()
                .map(|m| bits(px * m[0] + py * m[1] + -1.0f32 * m[2]))
                .collect();
            for k in 0..2usize {
                let d = inner.directions.value[r][c][k];
                assert_eq!(d, Coord3 { x: expected[0], y: expected[1], z: expected[2] });
            }
            // origins hold the translation column, on a singleton sample axis
            assert_eq!(
                inner.origins.value[r][c][0],
                Coord3 { x: bits(4.0), y: bits(8.0), z: bits(12.0) }
            );
        }
    }
}

#[test]
fn positions_are_origin_plus_scaled_direction() {
    let dataset = load(1, 2, 2, 3, 2.0, 6.0, 1.0);
    let item = dataset.get(0).unwrap();
    let inner = &dataset.inners[0];
    for r in 0..2usize {
        for c in 0..2usize {
            for k in 0..3usize {
                let o = inner.origins.value[r][c][0];
                let d = item.directions.value[r][c][k];
                let t = item.distances.value[r][c][k];
                let expected = Coord3 {
                    x: bits(f32::from_bits(o.x) + f32::from_bits(d.x) * f32::from_bits(t)),
                    y: bits(f32::from_bits(o.y) + f32::from_bits(d.y) * f32::from_bits(t)),
                    z: bits(f32::from_bits(o.z) + f32::from_bits(d.z) * f32::from_bits(t)),
                };
                assert_eq!(item.positions.value[r][c][k], expected);
            }
        }
    }
}

#[test]
fn split_rounding() {
    let dataset = load(106, 2, 2, 8, 2.0, 6.0, 50.0);
    let datasets = dataset.split_for_training(bits(0.8));
    assert_eq!(((0.8f32 * 106.0f32).round()) as usize, 85);
    assert_eq!(datasets.train.len(), 85);
    assert_eq!(datasets.test.len(), 21);
    assert_eq!(datasets.train.len() + datasets.test.len(), 106);
}

#[test]
fn split_extremes() {
    let full = load(10, 2, 2, 2, 2.0, 6.0, 1.0);
    let datasets = full.split_for_training(bits(1.0));
    assert_eq!(datasets.train.len(), 10);
    assert_eq!(datasets.test.len(), 0);

    let full = load(10, 2, 2, 2, 2.0, 6.0, 1.0);
    let datasets = full.split_for_training(bits(0.0));
    assert_eq!(datasets.train.len(), 0);
    assert_eq!(datasets.test.len(), 10);

    // out-of-range ratios are clamped before rounding
    let full = load(10, 2, 2, 2, 2.0, 6.0, 1.0);
    let datasets = full.split_for_training(bits(-0.5));
    assert_eq!(datasets.train.len(), 0);

    let full = load(10, 2, 2, 2, 2.0, 6.0, 1.0);
    let datasets = full.split_for_training(bits(1.5));
    assert_eq!(datasets.train.len(), 10);
}

#[test]
fn half_ratio_rounding() {
    // 0.5 * 5 = 2.5 rounds away from zero to 3
    let dataset = load(5, 2, 2, 2, 2.0, 6.0, 1.0);
    let datasets = dataset.split_for_training(bits(0.5));
    assert_eq!(datasets.train.len(), 3);
    assert_eq!(datasets.test.len(), 2);
}

#[test]
fn deterministic_test_access() {
    let dataset = load(4, 3, 3, 4, 2.0, 6.0, 1.0);
    let datasets = dataset.split_for_training(bits(0.5));
    let test_set = datasets.test;
    assert!(!test_set.has_noisy_distance);
    let a = test_set.get(0).unwrap();
    let b = test_set.get(0).unwrap();
    assert_eq!(a.positions.value, b.positions.value);
    assert_eq!(a.distances.value, b.distances.value);
    assert_eq!(a.directions.value, b.directions.value);
    assert_eq!(a.image.value, b.image.value);
}

#[test]
fn jittered_train_access() {
    let dataset = load(4, 3, 3, 2, 2.0, 6.0, 1.0);
    let base = dataset.inners[0].distances.value.clone();
    let datasets = dataset.split_for_training(bits(1.0));
    let train = datasets.train;
    assert!(train.has_noisy_distance);
    let a = train.get(0).unwrap();
    let b = train.get(0).unwrap();
    // the geometry is identical across accesses
    assert_eq!(a.directions.value, b.directions.value);
    assert_eq!(a.image.value, b.image.value);
    // every jittered distance stays within one step of its base value
    let step = (6.0f32 - 2.0) / 2.0;
    for r in 0..3usize {
        for c in 0..3usize {
            for k in 0..2usize {
                let base_v = f32::from_bits(base[r][c][k]);
                for item in [&a, &b] {
                    let v = f32::from_bits(item.distances.value[r][c][k]);
                    assert!(v >= base_v);
                    assert!(v <= base_v + step);
                }
            }
        }
    }
}

#[test]
fn out_of_range_access() {
    let dataset = load(3, 2, 2, 2, 2.0, 6.0, 1.0);
    assert!(dataset.get(3).is_none());
    assert!(dataset.get(100).is_none());
    assert!(dataset.get(2).is_some());
}

#[test]
fn count_mismatch_error() {
    let config = SimpleNerfDatasetConfig {
        points_per_ray: 2,
        distance_range: DistanceRange { start: bits(2.0), end: bits(6.0) },
    };
    let out = config.init_from_arrays(bits(1.0), &gray_images(3, 2, 2), &identity_poses(2));
    assert_eq!(out.unwrap_err(), DataError::InvalidData);
}

#[test]
fn channel_count_error() {
    let config = SimpleNerfDatasetConfig {
        points_per_ray: 2,
        distance_range: DistanceRange { start: bits(2.0), end: bits(6.0) },
    };
    let pixel = vec![bits(0.5), bits(0.25)];
    let images = ImageArray { count: 2, h: 2, w: 2, c: 2, value: vec![vec![vec![pixel; 2]; 2]; 2] };
    let out = config.init_from_arrays(bits(1.0), &images, &identity_poses(2));
    assert_eq!(out.unwrap_err(), DataError::InvalidData);
}

#[test]
fn image_pixels_preserved() {
    let dataset = load(2, 2, 2, 2, 2.0, 6.0, 1.0);
    let item = dataset.get(1).unwrap();
    for r in 0..2usize {
        for c in 0..2usize {
            assert_eq!(
                item.image.value[r][c],
                Coord3 { x: bits(0.5), y: bits(0.25), z: bits(0.75) }
            );
        }
    }
}
