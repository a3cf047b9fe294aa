use heaven_on_earth::configuration::Configuration;
use heaven_on_earth::image::ImageFormat;
use heaven_on_earth::ratio::pixel_count;
use heaven_on_earth::ratio::Ratio;
use heaven_on_earth::ratio::MEGAPIXEL;
use heaven_on_earth::reddit::Mode;
use heaven_on_earth::wallpaper::Wallpaper;

fn fraction(numerator: u64, denominator: u64) -> Ratio {
    Ratio::new(numerator, denominator).unwrap()
}

fn bounds(
    min_ratio: Option<Ratio>,
    max_ratio: Option<Ratio>,
    min_res: Option<Ratio>,
) -> Configuration {
    Configuration {
        mode: Mode::New,
        min_ratio,
        max_ratio,
        min_res,
        query_size: 10,
        run_every: None,
        output_dir: "image-out".to_string(),
        random: false,
        subreddit: "EarthPorn".to_string(),
    }
}

fn sized(width: u32, height: u32) -> Wallpaper {
    let mut wallpaper = Wallpaper::new("Sunset".to_string(), "https://example.org/s".to_string());
    wallpaper.format = Some(ImageFormat::Png);
    wallpaper.dimensions = Some((width, height));
    wallpaper
}

#[test]
fn fraction_needs_a_denominator() {
    assert_eq!(Ratio::new(1, 0), None);
    assert_eq!(Ratio::new(0, 0), None);
    assert_eq!(Ratio::new(16, 9), Some(Ratio { numerator: 16, denominator: 9 }));
    assert_eq!(Ratio::new(0, 1), Some(Ratio { numerator: 0, denominator: 1 }));
}

#[test]
fn megapixel_is_a_million_pixels() {
    assert_eq!(MEGAPIXEL, 1_000_000);
    assert_eq!(pixel_count(1920, 1080), 2_073_600);
    assert_eq!(pixel_count(0, 1080), 0);
    assert_eq!(pixel_count(u32::MAX, u32::MAX), 18_446_744_065_119_617_025);
}

#[test]
fn ratio_equal_to_the_least_is_wide_enough() {
    assert!(fraction(16, 9).check_min_ratio(1920, 1080));
    assert!(fraction(16, 9).check_min_ratio(16, 9));
    assert!(fraction(1, 1).check_min_ratio(500, 500));
    assert!(fraction(3, 2).check_min_ratio(3, 2));
}

#[test]
fn one_pixel_narrower_than_the_least_is_too_narrow() {
    assert!(!fraction(16, 9).check_min_ratio(1919, 1080));
    assert!(!fraction(16, 9).check_min_ratio(1920, 1081));
    assert!(!fraction(1, 1).check_min_ratio(499, 500));
    assert!(fraction(16, 9).check_min_ratio(1921, 1080));
}

#[test]
fn ratio_equal_to_the_greatest_is_tall_enough() {
    assert!(fraction(16, 9).check_max_ratio(1920, 1080));
    assert!(fraction(2, 1).check_max_ratio(2000, 1000));
    assert!(fraction(1, 1).check_max_ratio(1, 1));
}

#[test]
fn one_pixel_wider_than_the_greatest_is_too_wide() {
    assert!(!fraction(16, 9).check_max_ratio(1921, 1080));
    assert!(!fraction(16, 9).check_max_ratio(1920, 1079));
    assert!(!fraction(2, 1).check_max_ratio(2001, 1000));
    assert!(fraction(2, 1).check_max_ratio(1999, 1000));
}

#[test]
fn ratios_are_compared_exactly_for_the_largest_numbers() {
    let bound = fraction(u64::MAX, u64::MAX);
    assert!(bound.check_min_ratio(u32::MAX, u32::MAX));
    assert!(bound.check_max_ratio(u32::MAX, u32::MAX));
    assert!(!bound.check_min_ratio(u32::MAX - 1, u32::MAX));
    assert!(!bound.check_max_ratio(u32::MAX, u32::MAX - 1));
    let bound = fraction(u64::MAX, 1);
    assert!(!bound.check_min_ratio(u32::MAX, 1));
    assert!(bound.check_max_ratio(u32::MAX, 1));
}

#[test]
fn picture_of_no_height_is_wider_than_every_bound() {
    assert!(fraction(16, 9).check_min_ratio(1, 0));
    assert!(!fraction(16, 9).check_max_ratio(1, 0));
    assert!(!fraction(u64::MAX, 1).check_max_ratio(1, 0));
}

#[test]
fn picture_of_no_size_has_no_ratio() {
    assert!(!fraction(16, 9).check_min_ratio(0, 0));
    assert!(!fraction(16, 9).check_max_ratio(0, 0));
    assert!(!fraction(0, 1).check_min_ratio(0, 0));
}

#[test]
fn size_equal_to_the_least_is_big_enough() {
    assert!(fraction(2, 1).check_min_size(2000, 1000));
    assert!(fraction(1, 2).check_min_size(1000, 500));
    assert!(fraction(2_073_600, 1_000_000).check_min_size(1920, 1080));
    assert!(fraction(0, 1).check_min_size(0, 0));
}

#[test]
fn one_pixel_less_than_the_least_is_too_small() {
    assert!(!fraction(2, 1).check_min_size(1999, 1000));
    assert!(!fraction(2, 1).check_min_size(2000, 999));
    assert!(!fraction(2_073_601, 1_000_000).check_min_size(1920, 1080));
    assert!(fraction(2_073_599, 1_000_000).check_min_size(1920, 1080));
}

#[test]
fn sizes_are_compared_exactly_for_the_largest_numbers() {
    assert!(!fraction(u64::MAX, 1).check_min_size(u32::MAX, u32::MAX));
    assert!(fraction(u64::MAX, u64::MAX).check_min_size(1000, 1000));
    assert!(!fraction(u64::MAX, u64::MAX).check_min_size(1000, 999));
    assert!(fraction(18_446_744_065_119, u64::MAX).check_min_size(1, 1));
}

#[test]
fn wallpaper_meets_bounds_that_are_left_open() {
    assert!(sized(1, 1000).meets(&bounds(None, None, None)));
    assert!(sized(0, 0).meets(&bounds(None, None, None)));
}

#[test]
fn wallpaper_of_unknown_size_meets_nothing() {
    let unknown = Wallpaper::new("Sunset".to_string(), "https://example.org/s".to_string());
    assert!(!unknown.meets(&bounds(None, None, None)));
    assert!(!unknown.meets(&bounds(Some(fraction(0, 1)), None, None)));
}

#[test]
fn wallpaper_at_the_bounds_meets_them() {
    let config = bounds(Some(fraction(1, 1)), Some(fraction(2, 1)), Some(fraction(1, 2)));
    assert!(sized(1000, 1000).meets(&config));
    assert!(sized(2000, 1000).meets(&config));
    assert!(sized(1000, 500).meets(&config));
    assert!(sized(1500, 1000).meets(&config));
}

#[test]
fn wallpaper_outside_a_bound_does_not_meet_it() {
    let config = bounds(Some(fraction(1, 1)), Some(fraction(2, 1)), Some(fraction(1, 2)));
    assert!(!sized(999, 1000).meets(&config));
    assert!(!sized(2001, 1000).meets(&config));
    assert!(!sized(999, 500).meets(&config));
    assert!(!sized(707, 707).meets(&config));
    assert!(sized(708, 707).meets(&config));
}

#[test]
fn each_bound_counts_by_itself() {
    assert!(sized(10, 1000).meets(&bounds(None, Some(fraction(2, 1)), None)));
    assert!(!sized(10, 1000).meets(&bounds(Some(fraction(1, 1)), None, None)));
    assert!(sized(3000, 1000).meets(&bounds(Some(fraction(1, 1)), None, None)));
    assert!(!sized(3000, 1000).meets(&bounds(None, Some(fraction(2, 1)), None)));
    assert!(!sized(100, 100).meets(&bounds(None, None, Some(fraction(1, 1)))));
    assert!(sized(1000, 1000).meets(&bounds(None, None, Some(fraction(1, 1)))));
}

#[test]
fn wallpaper_is_current_where_its_filename_stands_in_the_path() {
    let wallpaper = sized(1, 1);
    assert_eq!(wallpaper.construct_filename(), "sunset.png");
    assert!(wallpaper.is_current(Some("/home/me/image-out/sunset.png")));
    assert!(wallpaper.is_current(Some("sunset.png")));
    assert!(wallpaper.is_current(Some("C:\\Users\\me\\sunset.png.bak")));
    assert!(!wallpaper.is_current(Some("/home/me/image-out/sunset.jpeg")));
    assert!(!wallpaper.is_current(Some("/home/me/image-out/sunrise.png")));
    assert!(!wallpaper.is_current(Some("")));
}

#[test]
fn every_wallpaper_is_current_where_the_background_is_unknown() {
    assert!(sized(1, 1).is_current(None));
}
