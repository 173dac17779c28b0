use spectrogram_core::errors::SpectroError;
use spectrogram_core::filterbank::{FilterBank, TriangleCenter};

#[test]
fn linear_scale_builds_no_filters() {
    for n in [0usize, 1, 5, 100] {
        let fb = FilterBank::linear(n, 16);
        assert_eq!(fb.filters.len(), 0);
        assert_eq!(fb.num_filters(), n);
        assert_eq!(fb.fft_size, 16);
    }
}

#[test]
fn linear_bank_gathers_nothing_per_band() {
    let fb = FilterBank::linear(3, 16);
    let spectrum: Vec<u32> = vec![1.0f32.to_bits(); 8];
    let rows = fb.gather(&spectrum).unwrap();
    assert_eq!(rows.len(), 3);
    for row in rows {
        assert!(row.is_empty());
    }
}

#[test]
fn centers_place_two_adjacent_weights() {
    let low = 0.75f32.to_bits();
    let high = 0.25f32.to_bits();
    let centers = vec![TriangleCenter { bin: 1, low, high }];
    let fb = FilterBank::from_centers(8, &centers);
    assert_eq!(fb.num_filters(), 1);
    assert_eq!(fb.filters.len(), 1);
    // rows span fft_size / 2 + 1 bins
    assert_eq!(fb.filters[0].len(), 5);
    assert_eq!(fb.filters[0][0], 0);
    assert_eq!(fb.filters[0][1], low);
    assert_eq!(fb.filters[0][2], high);
    assert_eq!(fb.filters[0][3], 0);
    assert_eq!(fb.filters[0][4], 0);
}

#[test]
fn center_at_or_beyond_half_is_a_dropped_band() {
    let low = 0.5f32.to_bits();
    let high = 0.5f32.to_bits();
    let centers = vec![
        TriangleCenter { bin: 4, low, high },
        TriangleCenter { bin: 9000, low, high },
    ];
    let fb = FilterBank::from_centers(8, &centers);
    assert_eq!(fb.filters.len(), 2);
    for row in &fb.filters {
        assert_eq!(row.len(), 5);
        assert!(row.iter().all(|&w| w == 0));
    }
}

#[test]
fn center_in_the_last_bin_writes_into_the_extra_column() {
    let low = 0.9f32.to_bits();
    let high = 0.1f32.to_bits();
    let centers = vec![TriangleCenter { bin: 3, low, high }];
    let fb = FilterBank::from_centers(8, &centers);
    assert_eq!(fb.filters[0][3], low);
    // the extra column holds the second weight ...
    assert_eq!(fb.filters[0][4], high);
    // ... but pairing stops at the spectrum's length, so it is never summed
    let spectrum: Vec<u32> = (0..4).map(|i| (i as f32).to_bits()).collect();
    let rows = fb.gather(&spectrum).unwrap();
    assert_eq!(rows[0].len(), 4);
    assert_eq!(rows[0][3], (low, 3.0f32.to_bits()));
}

#[test]
fn gather_rejects_wrong_spectrum_length() {
    let fb = FilterBank::from_centers(16, &vec![]);
    assert_eq!(fb.gather(&vec![0; 7]), Err(SpectroError::ShapeMismatch));
    assert_eq!(fb.gather(&vec![0; 9]), Err(SpectroError::ShapeMismatch));
    assert_eq!(fb.gather(&vec![0; 0]), Err(SpectroError::ShapeMismatch));
    assert!(fb.gather(&vec![0; 8]).is_ok());
}

#[test]
fn gather_pairs_weights_with_magnitudes_in_order() {
    let low = 0.75f32.to_bits();
    let high = 0.25f32.to_bits();
    let centers = vec![
        TriangleCenter { bin: 0, low, high },
        TriangleCenter { bin: 2, low, high },
    ];
    let fb = FilterBank::from_centers(8, &centers);
    let mags: Vec<f32> = vec![0.5, 1.5, 2.5, 3.5];
    let spectrum: Vec<u32> = mags.iter().map(|m| m.to_bits()).collect();
    let rows = fb.gather(&spectrum).unwrap();
    assert_eq!(rows.len(), 2);
    for (i, row) in rows.iter().enumerate() {
        assert_eq!(row.len(), 4);
        for (k, &(w, s)) in row.iter().enumerate() {
            assert_eq!(w, fb.filters[i][k]);
            assert_eq!(s, mags[k].to_bits());
        }
    }
    // summing each gathered row is the filter's dot product with the spectrum
    let dot: f32 = rows[1]
        .iter()
        .map(|&(w, s)| f32::from_bits(s) * f32::from_bits(w))
        .sum();
    assert_eq!(dot, 0.75 * 2.5 + 0.25 * 3.5);
}
