use cuadra::Error;
use cuadra::Grid2d;

#[test]
fn index_coords_round_trip() {
    let g = Grid2d::new(0_u8, 5, 7);
    for row in 0..5 {
        for col in 0..7 {
            let index = g.get_index(row, col).unwrap();
            assert_eq!(index, row * 7 + col);
            assert_eq!(Ok((row, col)), g.get_coords(index));
        }
    }
}

#[test]
fn shape_after_constructors() {
    assert_eq!(Grid2d::new(9_i32, 4, 3).vec().len(), 12);
    assert_eq!(
        Grid2d::from_rows(&[vec![1, 2], vec![3, 4], vec![5, 6]])
            .unwrap()
            .vec()
            .len(),
        6
    );
    assert_eq!(
        Grid2d::from_cols(&[vec![1, 2], vec![3, 4], vec![5, 6]])
            .unwrap()
            .vec()
            .len(),
        6
    );
    assert_eq!(Grid2d::from_row_order(&[1, 2, 3, 4], 2, 2).unwrap().vec().len(), 4);
    assert_eq!(Grid2d::from_col_order(&[1, 2, 3, 4], 2, 2).unwrap().vec().len(), 4);
    assert_eq!(Grid2d::from_fn_row_order(|k| k, 3, 3).vec().len(), 9);
    assert_eq!(Grid2d::from_fn_col_order(|k| k, 3, 3).vec().len(), 9);
    assert_eq!(
        Grid2d::from_iter_row_order(&[1, 2, 3, 4, 5], 2, 2).unwrap().vec().len(),
        4
    );
    assert_eq!(
        Grid2d::from_iter_col_order(&[1, 2, 3, 4, 5], 2, 2).unwrap().vec().len(),
        4
    );
    // a repeated chunk multiplies the storage by its own length
    assert_eq!(Grid2d::from_chunks(&[7, 8], 2, 3).vec().len(), 12);
}

#[test]
fn row_col_major_agreement() {
    let x = [vec![1, 2, 3], vec![4, 5, 6]];
    let flat: Vec<i32> = x.iter().flat_map(|row| row.clone()).collect();
    assert_eq!(Grid2d::from_rows(&x).unwrap().as_row_order(), flat);

    let y = [vec![1, 4], vec![2, 5], vec![3, 6]];
    assert_eq!(Grid2d::from_cols(&y).unwrap().as_cols(), y.to_vec());

    let a = [1, 2, 3, 4, 5, 6];
    let transposed = [1, 4, 2, 5, 3, 6];
    let g1 = Grid2d::from_row_order(&a, 2, 3).unwrap();
    let g2 = Grid2d::from_col_order(&transposed, 2, 3).unwrap();
    assert_eq!(g1.as_row_order(), g2.as_row_order());
    for row in 0..2 {
        for col in 0..3 {
            assert_eq!(g1.get(row, col), g2.get(row, col));
        }
    }
}

#[test]
fn row_one_is_4_5_6() {
    let g = Grid2d::from_rows(&[vec![1, 2, 3], vec![4, 5, 6]]).unwrap();
    assert_eq!(Ok(6), g.get(1, 2));
    assert_eq!(Ok(5), g.get_index(1, 2));
    assert_eq!(Ok(&[4, 5, 6][..]), g.row(1));
}

#[test]
fn from_col_major_reorders() {
    let g = Grid2d::from_col_order(&[1, 4, 2, 5, 3, 6], 2, 3).unwrap();
    assert_eq!(vec![vec![1, 2, 3], vec![4, 5, 6]], g.as_rows());
    assert_eq!(vec![1, 4, 2, 5, 3, 6], g.as_col_order());
}

#[test]
fn out_of_bounds_reports_indices() {
    let g = Grid2d::new(0_u8, 2, 3);
    assert_eq!(Err(Error::IndicesOutOfBounds(10, 10)), g.get(10, 10));
}

#[test]
fn mismatched_rows_rejected() {
    assert_eq!(
        Err(Error::DimensionMismatch),
        Grid2d::from_rows(&[vec![1, 2], vec![3, 4, 5]])
    );
    assert_eq!(
        Err(Error::DimensionMismatch),
        Grid2d::from_cols(&[vec![1, 2], vec![3]])
    );
    assert_eq!(
        Err(Error::DimensionMismatch),
        Grid2d::from_row_order(&[1, 2, 3], 2, 2)
    );
    assert_eq!(
        Err(Error::DimensionMismatch),
        Grid2d::from_col_order(&[1, 2, 3], 2, 2)
    );
}

#[test]
fn short_input_rejected() {
    assert_eq!(
        Err(Error::NotEnoughElements),
        Grid2d::from_iter_row_order(&[1, 2, 3], 2, 2)
    );
    assert_eq!(
        Err(Error::NotEnoughElements),
        Grid2d::from_iter_col_order(&[1, 2, 3], 2, 2)
    );
}

#[test]
fn flat_index_out_of_bounds() {
    let g = Grid2d::new(0_u8, 2, 3);
    assert_eq!(Err(Error::IndexOutOfBounds(6)), g.get_row_order(6));
    assert_eq!(Err(Error::IndexOutOfBounds(99)), g.get_col_order(99));
    assert_eq!(Err(Error::IndexOutOfBounds(6)), g.get_coords(6));
}

#[test]
fn empty_input_makes_empty_grid() {
    let rows: [Vec<u8>; 0] = [];
    let g = Grid2d::from_rows(&rows).unwrap();
    assert_eq!(0, g.num_rows());
    assert_eq!(0, g.num_cols());
    assert_eq!(0, g.capacity());
}

#[test]
fn generators_fill_in_order() {
    let g = Grid2d::from_fn_row_order(|k| k * 10, 2, 3);
    assert_eq!(vec![0, 10, 20, 30, 40, 50], g.vec());

    // the column major generator places call number col * rows + row
    let h = Grid2d::from_fn_col_order(|k| k * 10, 2, 3);
    assert_eq!(vec![0, 20, 40, 10, 30, 50], h.vec());
}

#[test]
fn iter_constructors_take_a_prefix() {
    let g = Grid2d::from_iter_row_order(&[1, 2, 3, 4, 5, 6, 7], 2, 3).unwrap();
    assert_eq!(vec![1, 2, 3, 4, 5, 6], g.vec());

    let h = Grid2d::from_iter_col_order(&[1, 4, 2, 5, 3, 6, 9], 2, 3).unwrap();
    assert_eq!(vec![1, 2, 3, 4, 5, 6], h.vec());
}

#[test]
fn chunks_tile_and_address() {
    let g: Grid2d<u8> = Grid2d::from_chunks(&[7, 8], 1, 3);
    assert_eq!(vec![7, 8, 7, 8, 7, 8], g.vec());

    // chunk coordinates on a 2 x 4 element grid, chunks of two
    let mut h = Grid2d::from_rows(&[vec![1, 2, 3, 4], vec![5, 6, 7, 8]]).unwrap();
    assert_eq!(4, h.chunked_capacity(2));
    assert_eq!(2, h.chunks_per_row(2));
    assert_eq!(Ok(6), h.get_chunk_index(2, 1, 1));
    assert_eq!(6, h.get_chunk_index_unchecked(2, 1, 1));
    assert_eq!(
        Err(Error::ChunkIndicesOutOfBounds(0, 2, 2)),
        h.get_chunk_index(2, 0, 2)
    );
    assert_eq!(
        Err(Error::ChunkIndicesOutOfBounds(5, 0, 2)),
        h.get_chunk(2, 5, 0)
    );
    assert_eq!(
        Err(Error::ChunkIndicesOutOfBounds(0, 9, 2)),
        h.get_chunk_mut(2, 0, 9)
    );
    assert_eq!(
        Err(Error::ChunkIndicesOutOfBounds(3, 3, 2)),
        h.set_chunk(2, 3, 3, &[1, 2])
    );
    assert_eq!(Ok(&[7, 8][..]), h.get_chunk(2, 1, 1));
    assert_eq!(&[7, 8][..], h.get_chunk_unchecked(2, 1, 1));
    assert_eq!(Ok(&mut [3, 4][..]), h.get_chunk_mut(2, 0, 1));
    assert_eq!(&mut [3, 4][..], h.get_chunk_mut_unchecked(2, 0, 1));

    assert_eq!(Ok(()), h.set_chunk(2, 0, 1, &[30, 40]));
    assert_eq!(vec![1, 2, 30, 40, 5, 6, 7, 8], h.vec_ref().clone());
    h.set_chunk_unchecked(2, 1, 0, &[50, 60]);
    assert_eq!(vec![1, 2, 30, 40, 50, 60, 7, 8], h.vec());
}

#[test]
fn chunk_runs_write_in_place() {
    let mut g = Grid2d::from_rows(&[vec![1, 2, 3], vec![4, 5, 6]]).unwrap();
    {
        let runs = g.chunks_iter_mut(4);
        assert_eq!(2, runs.len());
        for run in runs {
            run[0] = 0;
        }
    }
    assert_eq!(vec![0, 2, 3, 4, 0, 6], g.vec());
}

#[test]
fn whole_grid_views() {
    let g = Grid2d::from_rows(&[vec![1, 2, 3], vec![4, 5, 6]]).unwrap();
    assert_eq!(&[1, 2, 3, 4, 5, 6][..], g.iter());
    assert_eq!(vec![1, 4, 2, 5, 3, 6], g.iter_col_order());
    assert_eq!(vec![vec![1, 2, 3], vec![4, 5, 6]], g.rows_iter());
    assert_eq!(vec![vec![1, 4], vec![2, 5], vec![3, 6]], g.cols_iter());
    assert_eq!(vec![1, 2, 3, 4, 5, 6], g.as_row_order());
    assert_eq!(vec![1, 4, 2, 5, 3, 6], g.as_col_order());
    assert_eq!(
        vec![vec![1, 2, 3, 4], vec![5, 6]],
        g.chunks_iter(4)
    );
    assert_eq!(&vec![1, 2, 3, 4, 5, 6], g.vec_ref());
}

#[test]
fn row_views_and_writes() {
    let mut g = Grid2d::from_rows(&[vec![1, 2, 3], vec![4, 5, 6]]).unwrap();
    assert_eq!(&[4, 5, 6][..], g.row_unchecked(1));
    assert_eq!(Err(Error::IndicesOutOfBounds(2, 0)), g.row(2));
    {
        let r = g.row_mut(0).unwrap();
        r[1] = 20;
    }
    {
        let r = g.row_mut_unchecked(1);
        r[0] = 40;
    }
    assert_eq!(vec![1, 20, 3, 40, 5, 6], g.vec());
}

#[test]
fn element_writes_through_references() {
    let mut g = Grid2d::from_rows(&[vec![1, 2], vec![3, 4]]).unwrap();
    *g.get_ref_mut(0, 1).unwrap() = 20;
    *g.get_ref_mut_unchecked(1, 0) = 30;
    *g.get_ref_mut_row_order(0).unwrap() = 10;
    *g.get_ref_mut_col_order(3).unwrap() = 40;
    {
        let refs = g.col_iter_mut(1).unwrap();
        for cell in refs {
            *cell += 1;
        }
    }
    {
        let v = g.vec_ref_mut();
        v[0] = 11;
    }
    assert_eq!(Ok(11), g.get(0, 0));
    assert_eq!(vec![11, 21, 30, 41], g.vec());
}
