use cocoa_way::raster::render_surface;
use cocoa_way::surface::Buffer;

fn two_by_two() -> (Buffer, Vec<u8>) {
    let buffer = Buffer { id: 1, width: 2, height: 2, stride: 8 };
    let pixels = vec![
        0x01, 0x02, 0x03, 0x00, 0x11, 0x12, 0x13, 0x80, //
        0x21, 0x22, 0x23, 0xff, 0x31, 0x32, 0x33, 0x40,
    ];
    (buffer, pixels)
}

#[test]
fn pixels_land_at_the_offset_as_opaque_rgb() {
    let (buffer, pixels) = two_by_two();
    let mut canvas = vec![0u32; 12];
    render_surface(&buffer, &pixels, &mut canvas, 4, 3, 1, 1);
    assert_eq!(
        canvas,
        vec![
            0, 0, 0, 0, //
            0, 0xFF030201, 0xFF131211, 0, //
            0, 0xFF232221, 0xFF333231, 0,
        ]
    );
}

#[test]
fn pixels_outside_the_canvas_are_clipped() {
    let (buffer, pixels) = two_by_two();
    let mut canvas = vec![7u32; 4];
    render_surface(&buffer, &pixels, &mut canvas, 2, 2, -1, -1);
    assert_eq!(canvas, vec![0xFF333231, 7, 7, 7]);

    let mut canvas = vec![7u32; 4];
    render_surface(&buffer, &pixels, &mut canvas, 2, 2, 1, 1);
    assert_eq!(canvas, vec![7, 7, 7, 0xFF030201]);

    let mut canvas = vec![7u32; 4];
    render_surface(&buffer, &pixels, &mut canvas, 2, 2, 2, 0);
    assert_eq!(canvas, vec![7; 4]);

    let mut canvas = vec![7u32; 4];
    render_surface(&buffer, &pixels, &mut canvas, 2, 2, i32::MAX, i32::MIN);
    assert_eq!(canvas, vec![7; 4]);
}

#[test]
fn a_short_buffer_draws_only_the_pixels_it_holds() {
    let (buffer, pixels) = two_by_two();
    let mut canvas = vec![0u32; 4];
    render_surface(&buffer, &pixels[..11], &mut canvas, 2, 2, 0, 0);
    assert_eq!(canvas, vec![0xFF030201, 0xFF131211, 0, 0]);
    let mut canvas = vec![0u32; 4];
    render_surface(&buffer, &pixels[..12], &mut canvas, 2, 2, 0, 0);
    assert_eq!(canvas, vec![0xFF030201, 0xFF131211, 0xFF232221, 0]);
}

#[test]
fn a_short_canvas_takes_only_the_cells_it_has() {
    let (buffer, pixels) = two_by_two();
    let mut canvas = vec![0u32; 3];
    render_surface(&buffer, &pixels, &mut canvas, 2, 2, 0, 0);
    assert_eq!(canvas, vec![0xFF030201, 0xFF131211, 0xFF232221]);
}

#[test]
fn rows_beyond_the_canvas_height_are_left_out() {
    let (buffer, pixels) = two_by_two();
    let mut canvas = vec![0u32; 4];
    render_surface(&buffer, &pixels, &mut canvas, 2, 1, 0, 0);
    assert_eq!(canvas, vec![0xFF030201, 0xFF131211, 0, 0]);
}

#[test]
fn empty_shapes_draw_nothing() {
    let (_, pixels) = two_by_two();
    for (width, height) in [(0, 2), (2, 0), (-1, 2), (2, -3)] {
        let buffer = Buffer { id: 1, width, height, stride: 8 };
        let mut canvas = vec![5u32; 4];
        render_surface(&buffer, &pixels, &mut canvas, 2, 2, 0, 0);
        assert_eq!(canvas, vec![5; 4]);
    }
    let buffer = Buffer { id: 1, width: 2, height: 2, stride: 8 };
    let mut canvas = vec![5u32; 4];
    render_surface(&buffer, &pixels, &mut canvas, 0, 2, 0, 0);
    assert_eq!(canvas, vec![5; 4]);
}

#[test]
fn stride_wider_than_the_row_is_honoured() {
    let buffer = Buffer { id: 1, width: 1, height: 2, stride: 6 };
    let pixels = vec![1, 2, 3, 4, 9, 9, 5, 6, 7, 8];
    let mut canvas = vec![0u32; 2];
    render_surface(&buffer, &pixels, &mut canvas, 1, 2, 0, 0);
    assert_eq!(canvas, vec![0xFF030201, 0xFF070605]);
}

#[test]
fn a_negative_stride_reads_nothing_before_the_start() {
    let buffer = Buffer { id: 1, width: 1, height: 2, stride: -4 };
    let pixels = vec![1, 2, 3, 4, 5, 6, 7, 8];
    let mut canvas = vec![0u32; 2];
    render_surface(&buffer, &pixels, &mut canvas, 1, 2, 0, 0);
    assert_eq!(canvas, vec![0xFF030201, 0]);
}
