use st7789::driver::ST7789;
use st7789::graphics::{Pixel, Point, Rectangle, RectangleStyle, Rgb565, Size};
use st7789::orientation::Orientation;
use st7789::stream::PixelStream;
use st7789::wire::Step;

const RED: Rgb565 = Rgb565 { r: 31, g: 0, b: 0 };
const GREEN: Rgb565 = Rgb565 { r: 0, g: 63, b: 0 };
const BLUE: Rgb565 = Rgb565 { r: 0, g: 0, b: 31 };

fn rect(x: i32, y: i32, width: u32, height: u32) -> Rectangle {
    Rectangle { top_left: Point { x, y }, size: Size { width, height } }
}

fn head(sx: u16, sy: u16, ex: u16, ey: u16) -> Vec<Step> {
    vec![
        Step::Command(0x2A),
        Step::Data(sx.to_be_bytes().to_vec()),
        Step::Data(ex.to_be_bytes().to_vec()),
        Step::Command(0x2B),
        Step::Data(sy.to_be_bytes().to_vec()),
        Step::Data(ey.to_be_bytes().to_vec()),
        Step::Command(0x2C),
    ]
}

fn words(plan: &[Step]) -> Vec<u16> {
    let mut bytes = Vec::new();
    for step in plan {
        if let Step::Data(chunk) = step {
            bytes.extend_from_slice(chunk);
        }
    }
    bytes.chunks(2).map(|pair| u16::from_be_bytes([pair[0], pair[1]])).collect()
}

#[test]
fn colors_pack_into_five_six_five() {
    let driver = ST7789::new(240, 320);
    let point = Point { x: 0, y: 0 };
    let cases = [
        (RED, 0xF800u16),
        (GREEN, 0x07E0),
        (BLUE, 0x001F),
        (Rgb565 { r: 0, g: 0, b: 0 }, 0x0000),
        (Rgb565 { r: 31, g: 63, b: 31 }, 0xFFFF),
        (Rgb565 { r: 1, g: 2, b: 3 }, 0x0843),
        (Rgb565 { r: 0b10001, g: 0b100001, b: 0b10001 }, 0x8C31),
    ];
    for (color, word) in cases {
        let plan = driver.draw_iter(&[Pixel(point, color)]);
        assert_eq!(plan[7], Step::Data(word.to_be_bytes().to_vec()));
    }
}

#[test]
fn color_channels_ignore_their_high_bits() {
    let driver = ST7789::new(240, 320);
    let point = Point { x: 0, y: 0 };
    let plan = driver.draw_iter(&[Pixel(point, Rgb565 { r: 32, g: 64, b: 32 })]);
    assert_eq!(plan[7], Step::Data(vec![0x00, 0x00]));
    let plan = driver.draw_iter(&[Pixel(point, Rgb565 { r: 0xFF, g: 0xFF, b: 0xFF })]);
    assert_eq!(plan[7], Step::Data(vec![0xFF, 0xFF]));
}

#[test]
fn draw_iter_sets_each_pixel_with_its_own_window() {
    let driver = ST7789::new(240, 320);
    let plan = driver.draw_iter(&[
        Pixel(Point { x: 5, y: 5 }, RED),
        Pixel(Point { x: 6, y: 7 }, BLUE),
    ]);
    let mut expected = driver.set_pixel(5, 5, 0xF800);
    expected.extend(driver.set_pixel(6, 7, 0x001F));
    assert_eq!(plan, expected);
    assert_eq!(plan.len(), 16);
}

#[test]
fn draw_iter_of_nothing_is_empty() {
    let driver = ST7789::new(240, 320);
    assert!(driver.draw_iter(&[]).is_empty());
}

#[test]
fn fill_solid_uses_inclusive_corners() {
    let driver = ST7789::new(240, 320);
    let plan = driver.fill_solid(&rect(10, 20, 2, 3), GREEN);
    assert_eq!(plan[..7], head(10, 20, 11, 22)[..]);
    assert_eq!(words(&plan[7..]), vec![0x07E0; 6]);
    assert_eq!(plan.len(), 7 + 6);
}

#[test]
fn fill_solid_of_one_pixel_matches_set_pixel() {
    let driver = ST7789::new(240, 320);
    let plan = driver.fill_solid(&rect(5, 5, 1, 1), RED);
    assert_eq!(plan, driver.set_pixel(5, 5, 0xF800));
}

#[test]
fn fill_solid_without_area_draws_nothing() {
    let driver = ST7789::new(240, 320);
    assert!(driver.fill_solid(&rect(10, 10, 0, 5), RED).is_empty());
    assert!(driver.fill_solid(&rect(10, 10, 5, 0), RED).is_empty());
    assert!(driver.fill_solid(&rect(10, 10, 0, 0), RED).is_empty());
    assert!(driver.fill_solid(&rect(i32::MAX, i32::MAX, 0, 0), RED).is_empty());
}

#[test]
fn fill_solid_refuses_a_window_out_of_order() {
    let driver = ST7789::new(240, 320);
    assert!(driver.fill_solid(&rect(-1, 0, 3, 1), RED).is_empty());
    assert!(driver.fill_solid(&rect(0, 65535, 1, 2), RED).is_empty());
}

#[test]
fn fill_solid_buffered_sends_the_same_words() {
    let driver = ST7789::new(240, 320).with_stream(PixelStream::Buffered);
    let plan = driver.fill_solid(&rect(0, 0, 10, 10), BLUE);
    assert_eq!(plan[..7], head(0, 0, 9, 9)[..]);
    assert_eq!(plan.len(), 7 + 2);
    assert_eq!(words(&plan[7..]), vec![0x001F; 100]);
}

#[test]
fn fill_contiguous_cuts_off_at_the_area() {
    let driver = ST7789::new(240, 320);
    let colors = [RED, GREEN, BLUE, RED, GREEN, BLUE];
    let plan = driver.fill_contiguous(&rect(3, 4, 2, 2), &colors);
    assert_eq!(plan[..7], head(3, 4, 4, 5)[..]);
    assert_eq!(words(&plan[7..]), vec![0xF800, 0x07E0, 0x001F, 0xF800]);
}

#[test]
fn fill_contiguous_sends_a_shorter_run_as_it_is() {
    let driver = ST7789::new(240, 320);
    let plan = driver.fill_contiguous(&rect(3, 4, 2, 2), &[BLUE, GREEN]);
    assert_eq!(plan[..7], head(3, 4, 4, 5)[..]);
    assert_eq!(words(&plan[7..]), vec![0x001F, 0x07E0]);
}

#[test]
fn fill_contiguous_without_area_draws_nothing() {
    let driver = ST7789::new(240, 320);
    assert!(driver.fill_contiguous(&rect(0, 0, 0, 4), &[RED, RED]).is_empty());
}

#[test]
fn image_corner_lies_one_past_the_last_pixel() {
    let driver = ST7789::new(240, 320);
    let colors = [RED, GREEN, BLUE, RED];
    let plan = driver.draw_image(Point { x: 10, y: 20 }, Point { x: 12, y: 22 }, &colors);
    assert_eq!(plan[..7], head(10, 20, 11, 21)[..]);
    assert_eq!(words(&plan[7..]), vec![0xF800, 0x07E0, 0x001F, 0xF800]);
}

#[test]
fn image_and_rectangle_differ_by_one_on_the_far_edge() {
    let driver = ST7789::new(240, 320);
    let image = driver.draw_image(Point { x: 0, y: 0 }, Point { x: 4, y: 4 }, &[]);
    let solid = driver.fill_contiguous(&rect(0, 0, 4, 4), &[]);
    assert_eq!(image, solid);
    assert_eq!(image, head(0, 0, 3, 3));
}

#[test]
fn image_without_area_draws_nothing() {
    let driver = ST7789::new(240, 320);
    assert!(driver.draw_image(Point { x: 5, y: 5 }, Point { x: 5, y: 9 }, &[RED]).is_empty());
}

#[test]
fn clear_writes_every_word_of_panel_memory() {
    let driver = ST7789::new(240, 320);
    let plan = driver.clear(RED);
    assert_eq!(plan[..7], head(0, 0, 239, 319)[..]);
    assert_eq!(plan.len(), 7 + 76_800);
    let sent = words(&plan[7..]);
    assert_eq!(sent.len(), 76_800);
    assert!(sent.iter().all(|word| *word == 0xF800));
}

#[test]
fn clear_in_landscape_spans_the_swapped_panel() {
    for orientation in [Orientation::Landscape, Orientation::LandscapeSwapped] {
        let mut driver = ST7789::new(240, 320).with_stream(PixelStream::Buffered);
        driver.set_orientation(&orientation);
        let plan = driver.clear(BLUE);
        assert_eq!(plan[..7], head(0, 0, 319, 239)[..]);
        assert_eq!(plan.len(), 7 + 1200);
        let sent = words(&plan[7..]);
        assert_eq!(sent.len(), 76_800);
        assert!(sent.iter().all(|word| *word == 0x001F));
    }
}

#[test]
fn clear_ignores_the_visible_size() {
    let small = ST7789::new(135, 240).clear(GREEN);
    let full = ST7789::new(240, 320).clear(GREEN);
    assert_eq!(small, full);
    let mut swapped = ST7789::new(240, 320);
    swapped.set_orientation(&Orientation::PortraitSwapped);
    assert_eq!(swapped.clear(GREEN), full);
}

#[test]
fn size_reports_the_visible_area() {
    let mut driver = ST7789::new(135, 240);
    assert_eq!(driver.size(), Size { width: 135, height: 240 });
    driver.set_orientation(&Orientation::Landscape);
    assert_eq!(driver.size(), Size { width: 240, height: 135 });
}

#[test]
fn filled_rectangle_goes_into_one_window() {
    let driver = ST7789::new(240, 320);
    let area = rect(2, 3, 4, 5);
    let pixels = [Pixel(Point { x: 2, y: 3 }, BLUE)];
    let plan = driver.draw_rectangle(&area, RectangleStyle::Filled(RED), &pixels);
    assert_eq!(plan, driver.fill_solid(&area, RED));
    assert_eq!(plan[..7], head(2, 3, 5, 7)[..]);
    assert_eq!(words(&plan[7..]), vec![0xF800; 20]);
}

#[test]
fn outlined_rectangle_is_drawn_pixel_by_pixel() {
    let driver = ST7789::new(240, 320);
    let area = rect(0, 0, 2, 2);
    let pixels = [
        Pixel(Point { x: 0, y: 0 }, GREEN),
        Pixel(Point { x: 1, y: 0 }, GREEN),
        Pixel(Point { x: 0, y: 1 }, GREEN),
        Pixel(Point { x: 1, y: 1 }, GREEN),
    ];
    let plan = driver.draw_rectangle(&area, RectangleStyle::Outlined, &pixels);
    assert_eq!(plan, driver.draw_iter(&pixels));
    assert_eq!(plan.len(), 4 * 8);
    assert_eq!(plan[..8], driver.set_pixel(0, 0, 0x07E0)[..]);
    let other = driver.draw_rectangle(&area, RectangleStyle::Other, &pixels);
    assert_eq!(other, plan);
}

#[test]
fn filled_rectangle_without_area_draws_nothing() {
    let driver = ST7789::new(240, 320);
    let pixels = [Pixel(Point { x: 0, y: 0 }, GREEN)];
    let plan = driver.draw_rectangle(&rect(4, 4, 0, 0), RectangleStyle::Filled(RED), &pixels);
    assert!(plan.is_empty());
}
