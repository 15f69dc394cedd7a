use wireframe::render::{draw_line, draw_triangle};

#[test]
fn degenerate_line_plots_one_pixel_in_the_start_color() {
    let dims = (4usize, 4usize);
    let mut buffer = vec![0x111111u32; 16];
    draw_line(&mut buffer, dims, 0, 0, 0, 0, 0xABCDEF, 0x123456);
    assert_eq!(buffer[0], 0xABCDEF);
    for i in 1..16 {
        assert_eq!(buffer[i], 0x111111);
    }
}

#[test]
fn horizontal_line_channels_increase_monotonically() {
    let dims = (5usize, 1usize);
    let mut buffer = vec![0u32; 5];
    draw_line(&mut buffer, dims, 0, 0, 4, 0, 0x000000, 0xFFFFFF);
    let mut prev = (0i32, 0i32, 0i32);
    for x in 0..5 {
        let c = buffer[x];
        let cur = (
            ((c >> 16) & 0xFF) as i32,
            ((c >> 8) & 0xFF) as i32,
            (c & 0xFF) as i32,
        );
        if x > 0 {
            assert!(cur.0 > prev.0, "red not increasing at {}", x);
            assert!(cur.1 > prev.1, "green not increasing at {}", x);
            assert!(cur.2 > prev.2, "blue not increasing at {}", x);
        }
        prev = cur;
    }
    assert_eq!(buffer[0], 0x000000);
}

#[test]
fn line_interpolation_parameter_follows_the_column() {
    // the parameter is x / width, not distance along the segment
    let dims = (5usize, 1usize);
    let mut buffer = vec![0u32; 5];
    draw_line(&mut buffer, dims, 0, 0, 4, 0, 0x000000, 0xFF0000);
    // t at column x is trunc(65536x/5); red channel is trunc(255 t / 65536)
    let expected = [0u32, 50, 101, 152, 203];
    for x in 0..5 {
        assert_eq!(buffer[x] >> 16, expected[x], "red at column {}", x);
    }
}

#[test]
fn line_walk_stops_at_the_viewport_border() {
    let dims = (4usize, 1usize);
    let mut buffer = vec![0u32; 4];
    draw_line(&mut buffer, dims, 0, 0, 10, 0, 0xFFFFFF, 0xFFFFFF);
    for x in 0..4 {
        assert_ne!(buffer[x], 0, "pixel {} should be plotted", x);
    }
}

#[test]
fn line_starting_off_screen_plots_nothing() {
    let dims = (4usize, 4usize);
    let mut buffer = vec![0u32; 16];
    draw_line(&mut buffer, dims, -5, -5, 2, 2, 0xFFFFFF, 0xFFFFFF);
    assert!(buffer.iter().all(|&p| p == 0));
}

#[test]
fn diagonal_line_visits_the_diagonal() {
    let dims = (3usize, 3usize);
    let mut buffer = vec![0u32; 9];
    draw_line(&mut buffer, dims, 0, 0, 2, 2, 0xFFFFFF, 0xFFFFFF);
    assert_ne!(buffer[0], 0);
    assert_ne!(buffer[4], 0);
    assert_ne!(buffer[8], 0);
}

#[test]
fn triangle_draws_its_three_edges_only() {
    let dims = (3usize, 3usize);
    let mut buffer = vec![0u32; 9];
    let c = 0xFFFFFF;
    draw_triangle(&mut buffer, dims, 0, 0, 2, 0, 0, 2, c, c, c);
    // corners are on some edge
    assert_ne!(buffer[0], 0);
    assert_ne!(buffer[2], 0);
    assert_ne!(buffer[6], 0);
    // the pixel past the hypotenuse stays untouched
    assert_eq!(buffer[8], 0);
}
