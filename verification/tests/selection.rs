use heaven_on_earth::configuration::Configuration;
use heaven_on_earth::image::ImageFormat;
use heaven_on_earth::ratio::Ratio;
use heaven_on_earth::reddit::Mode;
use heaven_on_earth::selection::Action;
use heaven_on_earth::selection::Event;
use heaven_on_earth::selection::Phase;
use heaven_on_earth::selection::Selection;
use heaven_on_earth::wallpaper::Wallpaper;

/// A directory and a network that live in memory, and a record of what was
/// asked of them.
struct World {
    dir: String,
    files: Option<Vec<(String, Vec<u8>)>>,
    pictures: Vec<(String, Result<Vec<u8>, String>)>,
    background: Option<String>,
    write_fails: bool,
    log: Vec<String>,
}

fn world(dir: &str) -> World {
    World {
        dir: dir.to_string(),
        files: Some(Vec::new()),
        pictures: Vec::new(),
        background: Some("/usr/share/backgrounds/default.png".to_string()),
        write_fails: false,
        log: Vec::new(),
    }
}

fn path_of(world: &World, name: &str) -> String {
    format!("{}/{}", world.dir, name)
}

fn perform(world: &mut World, action: Action) -> Result<Event, Option<Wallpaper>> {
    match action {
        Action::ListDirectory { dir } => {
            world.log.push(format!("list {dir}"));
            assert_eq!(dir, world.dir);
            let names = world
                .files
                .as_ref()
                .map(|files| files.iter().map(|(name, _)| name.clone()).collect());
            Ok(Event::Entries(names))
        }
        Action::ReadFile { path } => {
            world.log.push(format!("read {path}"));
            let files = world.files.clone().unwrap_or_default();
            let found = files.iter().find(|(name, _)| path_of(world, name) == path);
            Ok(Event::Contents(found.map(|(_, bytes)| bytes.clone())))
        }
        Action::Download { url } => {
            world.log.push(format!("download {url}"));
            let found = world.pictures.iter().find(|(address, _)| *address == url);
            Ok(Event::Response(match found {
                Some((_, response)) => response.clone(),
                None => Err("request failed: not found".to_string()),
            }))
        }
        Action::QueryBackground => {
            world.log.push("background".to_string());
            Ok(Event::Background(world.background.clone()))
        }
        Action::Probe { path } => {
            world.log.push(format!("probe {path}"));
            let files = world.files.clone().unwrap_or_default();
            Ok(Event::Exists(files.iter().any(|(name, _)| path_of(world, name) == path)))
        }
        Action::Write { dir, path, data } => {
            world.log.push(format!("write {path}"));
            assert_eq!(dir, world.dir);
            if world.write_fails {
                return Ok(Event::Written(Err("could not create file: denied".to_string())));
            }
            let name = path[dir.len() + 1..].to_string();
            world.files.get_or_insert_with(Vec::new).push((name, data));
            Ok(Event::Written(Ok(())))
        }
        Action::Finish(result) => Err(result),
    }
}

fn find(
    world: &mut World,
    config: &Configuration,
    candidates: Vec<Wallpaper>,
) -> Option<Wallpaper> {
    let (mut selection, mut action) = Selection::start(config.clone(), candidates);
    loop {
        let event = match perform(world, action) {
            Ok(event) => event,
            Err(result) => {
                assert_eq!(selection.phase(), Phase::Done);
                return result;
            }
        };
        assert!(selection.awaits(&event));
        let (next, asked) = selection.try_step(event).ok().unwrap();
        selection = next;
        action = asked;
    }
}

fn search_config(min_ratio: Option<Ratio>, max_ratio: Option<Ratio>) -> Configuration {
    Configuration {
        mode: Mode::Hot,
        min_ratio,
        max_ratio,
        min_res: None,
        query_size: 50,
        run_every: None,
        output_dir: "image-out".to_string(),
        random: false,
        subreddit: "EarthPorn".to_string(),
    }
}

fn offer(title: &str) -> Wallpaper {
    Wallpaper::new(title.to_string(), format!("https://example.org/{title}"))
}

fn png_file(width: u32, height: u32) -> Vec<u8> {
    let mut bytes = vec![0x89, b'P', b'N', b'G', b'\r', b'\n', 0x1a, b'\n'];
    bytes.extend_from_slice(&[0, 0, 0, 13]);
    bytes.extend_from_slice(b"IHDR");
    bytes.extend_from_slice(&width.to_be_bytes());
    bytes.extend_from_slice(&height.to_be_bytes());
    bytes.extend_from_slice(&[8, 2, 0, 0, 0]);
    bytes
}

fn jpeg_file(width: u16, height: u16) -> Vec<u8> {
    let mut bytes = vec![0xff, 0xd8, 0xff, 0xc0, 0x00, 0x11, 0x08];
    bytes.extend_from_slice(&height.to_be_bytes());
    bytes.extend_from_slice(&width.to_be_bytes());
    bytes.extend_from_slice(&[3, 1, 0x22, 0, 2, 0x11, 1, 3, 0x11, 1]);
    bytes
}

fn serve(world: &mut World, title: &str, bytes: Vec<u8>) {
    world.pictures.push((format!("https://example.org/{title}"), Ok(bytes)));
}

fn between_one_and_two() -> Configuration {
    search_config(
        Some(Ratio { numerator: 1, denominator: 1 }),
        Some(Ratio { numerator: 2, denominator: 1 }),
    )
}

#[test]
fn first_candidate_that_passes_is_the_result() {
    let mut world = world("image-out");
    serve(&mut world, "wide-ok", png_file(1600, 1000));
    serve(&mut world, "too-narrow", png_file(500, 1000));
    serve(&mut world, "tall-ok", png_file(1000, 1000));
    let candidates = vec![offer("wide-ok"), offer("too-narrow"), offer("tall-ok")];
    let result = find(&mut world, &between_one_and_two(), candidates).unwrap();
    assert_eq!(result.title, "wide-ok");
    assert_eq!(result.url, "https://example.org/wide-ok");
    assert_eq!(result.format, Some(ImageFormat::Png));
    assert_eq!(result.dimensions, Some((1600, 1000)));
    assert_eq!(result.file, Some("image-out/wide-ok.png".to_string()));
    assert_eq!(
        world.log,
        vec![
            "list image-out",
            "download https://example.org/wide-ok",
            "background",
            "probe image-out/wide-ok.png",
            "write image-out/wide-ok.png",
        ]
    );
    assert_eq!(world.files, Some(vec![("wide-ok.png".to_string(), png_file(1600, 1000))]));
}

#[test]
fn candidate_that_fails_the_ratio_is_fetched_and_given_up() {
    let mut world = world("image-out");
    serve(&mut world, "too-narrow", png_file(500, 1000));
    serve(&mut world, "wide-ok", png_file(1600, 1000));
    serve(&mut world, "tall-ok", png_file(1000, 1000));
    let candidates = vec![offer("too-narrow"), offer("wide-ok"), offer("tall-ok")];
    let result = find(&mut world, &between_one_and_two(), candidates).unwrap();
    assert_eq!(result.title, "wide-ok");
    assert_eq!(
        world.log,
        vec![
            "list image-out",
            "download https://example.org/too-narrow",
            "list image-out",
            "download https://example.org/wide-ok",
            "background",
            "probe image-out/wide-ok.png",
            "write image-out/wide-ok.png",
        ]
    );
}

#[test]
fn candidate_on_disk_is_not_fetched() {
    let mut world = world("image-out");
    world.files = Some(vec![
        ("other.png".to_string(), png_file(1, 1)),
        ("sunset_over_the_bay.jpg".to_string(), jpeg_file(1920, 1080)),
    ]);
    let candidates = vec![offer("Sunset Over The Bay")];
    let result = find(&mut world, &search_config(None, None), candidates).unwrap();
    assert_eq!(result.title, "Sunset Over The Bay");
    assert_eq!(result.file, Some("image-out/sunset_over_the_bay.jpg".to_string()));
    assert_eq!(result.format, Some(ImageFormat::Jpeg));
    assert_eq!(result.dimensions, Some((1920, 1080)));
    assert_eq!(
        world.log,
        vec!["list image-out", "read image-out/sunset_over_the_bay.jpg", "background"]
    );
    assert_eq!(world.files.unwrap().len(), 2);
}

#[test]
fn no_candidates_no_result() {
    let mut world = world("image-out");
    assert_eq!(find(&mut world, &search_config(None, None), Vec::new()), None);
    assert_eq!(world.log, Vec::<String>::new());
    assert_eq!(world.files, Some(Vec::new()));
}

#[test]
fn candidate_that_is_the_background_is_given_up() {
    let mut world = world("image-out");
    world.background = Some("/home/me/image-out/wide-ok.png".to_string());
    serve(&mut world, "wide-ok", png_file(1600, 1000));
    let result = find(&mut world, &between_one_and_two(), vec![offer("wide-ok")]);
    assert_eq!(result, None);
    assert_eq!(
        world.log,
        vec!["list image-out", "download https://example.org/wide-ok", "background"]
    );
    assert_eq!(world.files, Some(Vec::new()));
}

#[test]
fn candidate_on_disk_that_is_the_background_is_given_up() {
    let mut world = world("image-out");
    world.files = Some(vec![("wide-ok.png".to_string(), png_file(1600, 1000))]);
    world.background = Some("image-out/wide-ok.png".to_string());
    serve(&mut world, "next", png_file(1500, 1000));
    let result = find(&mut world, &between_one_and_two(), vec![offer("wide-ok"), offer("next")]);
    assert_eq!(result.unwrap().title, "next");
    assert_eq!(
        world.log,
        vec![
            "list image-out",
            "read image-out/wide-ok.png",
            "background",
            "list image-out",
            "download https://example.org/next",
            "background",
            "probe image-out/next.png",
            "write image-out/next.png",
        ]
    );
}

#[test]
fn every_candidate_is_given_up_where_the_background_is_unknown() {
    let mut world = world("image-out");
    world.background = None;
    serve(&mut world, "one", png_file(1600, 1000));
    serve(&mut world, "two", png_file(1600, 1000));
    let result = find(&mut world, &search_config(None, None), vec![offer("one"), offer("two")]);
    assert_eq!(result, None);
    assert_eq!(world.files, Some(Vec::new()));
}

#[test]
fn candidate_that_cannot_be_fetched_is_given_up() {
    let mut world = world("image-out");
    world.pictures.push((
        "https://example.org/gone".to_string(),
        Err("request failed: connection refused".to_string()),
    ));
    serve(&mut world, "here", jpeg_file(800, 600));
    let result = find(&mut world, &search_config(None, None), vec![offer("gone"), offer("here")]);
    let result = result.unwrap();
    assert_eq!(result.title, "here");
    assert_eq!(result.format, Some(ImageFormat::Jpeg));
    assert_eq!(result.file, Some("image-out/here.jpeg".to_string()));
}

#[test]
fn candidate_in_an_unsupported_format_is_given_up() {
    let mut world = world("image-out");
    serve(&mut world, "page", b"<html>".to_vec());
    serve(&mut world, "here", png_file(800, 600));
    let result = find(&mut world, &search_config(None, None), vec![offer("page"), offer("here")]);
    assert_eq!(result.unwrap().title, "here");
    assert_eq!(
        world.log,
        vec![
            "list image-out",
            "download https://example.org/page",
            "list image-out",
            "download https://example.org/here",
            "background",
            "probe image-out/here.png",
            "write image-out/here.png",
        ]
    );
}

#[test]
fn candidate_that_cannot_be_written_is_given_up() {
    let mut world = world("image-out");
    world.write_fails = true;
    serve(&mut world, "one", png_file(800, 600));
    serve(&mut world, "two", png_file(800, 600));
    let result = find(&mut world, &search_config(None, None), vec![offer("one"), offer("two")]);
    assert_eq!(result, None);
    assert_eq!(world.log.iter().filter(|entry| entry.starts_with("write")).count(), 2);
}

#[test]
fn missing_directory_is_an_empty_cache() {
    let mut world = world("image-out");
    world.files = None;
    serve(&mut world, "one", png_file(800, 600));
    let result = find(&mut world, &search_config(None, None), vec![offer("one")]).unwrap();
    assert_eq!(result.file, Some("image-out/one.png".to_string()));
    assert_eq!(world.files, Some(vec![("one.png".to_string(), png_file(800, 600))]));
}

#[test]
fn file_that_is_there_is_not_written_again() {
    let mut world = world("image-out");
    world.files = Some(vec![("zz_one.png".to_string(), png_file(1, 1))]);
    serve(&mut world, "one", png_file(800, 600));
    let config = search_config(None, None);
    let first = find(&mut world, &config, vec![offer("one")]).unwrap();
    assert_eq!(first.file, Some("image-out/one.png".to_string()));
    assert_eq!(world.files.as_ref().unwrap().len(), 2);
    world.log.clear();

    // The second run finds the file of the first run on disk.
    let second = find(&mut world, &config, vec![offer("one")]).unwrap();
    assert_eq!(second, first);
    assert_eq!(world.files.as_ref().unwrap().len(), 2);
    assert!(!world.log.iter().any(|entry| entry.starts_with("write")));
    assert!(!world.log.iter().any(|entry| entry.starts_with("download")));
}

#[test]
fn probe_that_finds_the_file_ends_the_search_without_writing() {
    let config = search_config(None, None);
    let (selection, action) = Selection::start(config, vec![offer("one")]);
    assert_eq!(action, Action::ListDirectory { dir: "image-out".to_string() });
    let (selection, action) = selection.step(Event::Entries(Some(Vec::new())));
    assert_eq!(action, Action::Download { url: "https://example.org/one".to_string() });
    let (selection, action) = selection.step(Event::Response(Ok(png_file(800, 600))));
    assert_eq!(action, Action::QueryBackground);
    let (selection, action) = selection.step(Event::Background(Some("/none".to_string())));
    assert_eq!(action, Action::Probe { path: "image-out/one.png".to_string() });
    assert_eq!(selection.phase(), Phase::Probing);
    let (selection, action) = selection.step(Event::Exists(true));
    assert_eq!(selection.phase(), Phase::Done);
    let mut expected = offer("one");
    expected.format = Some(ImageFormat::Png);
    expected.dimensions = Some((800, 600));
    expected.file = Some("image-out/one.png".to_string());
    assert_eq!(action, Action::Finish(Some(expected)));
}

#[test]
fn write_hands_out_the_fetched_bytes() {
    let config = search_config(None, None);
    let (selection, _) = Selection::start(config, vec![offer("one")]);
    let (selection, _) = selection.step(Event::Entries(None));
    let (selection, _) = selection.step(Event::Response(Ok(jpeg_file(800, 600))));
    let (selection, _) = selection.step(Event::Background(Some(String::new())));
    let (selection, action) = selection.step(Event::Exists(false));
    assert_eq!(selection.phase(), Phase::Writing);
    assert_eq!(
        action,
        Action::Write {
            dir: "image-out".to_string(),
            path: "image-out/one.jpeg".to_string(),
            data: jpeg_file(800, 600),
        }
    );
    let (selection, action) = selection.step(Event::Written(Ok(())));
    assert_eq!(selection.phase(), Phase::Done);
    match action {
        Action::Finish(Some(wallpaper)) => {
            assert_eq!(wallpaper.file, Some("image-out/one.jpeg".to_string()))
        }
        other => panic!("{other:?}"),
    }
}

#[test]
fn file_on_disk_that_cannot_be_read_is_given_up_without_fetching() {
    let config = search_config(None, None);
    let (selection, _) = Selection::start(config, vec![offer("one"), offer("two")]);
    let (selection, action) = selection.step(Event::Entries(Some(vec!["one.png".to_string()])));
    assert_eq!(action, Action::ReadFile { path: "image-out/one.png".to_string() });
    assert_eq!(selection.phase(), Phase::Reading);
    let (selection, action) = selection.step(Event::Contents(None));
    assert_eq!(action, Action::ListDirectory { dir: "image-out".to_string() });
    assert_eq!(selection.phase(), Phase::Listing);
}

#[test]
fn file_on_disk_that_is_no_picture_is_given_up_without_fetching() {
    let config = search_config(None, None);
    let (selection, _) = Selection::start(config, vec![offer("one")]);
    let (selection, _) = selection.step(Event::Entries(Some(vec!["one.txt".to_string()])));
    let (selection, action) = selection.step(Event::Contents(Some(b"notes".to_vec())));
    assert_eq!(action, Action::Finish(None));
    assert_eq!(selection.phase(), Phase::Done);
}

#[test]
fn machine_awaits_the_outcome_of_its_action() {
    let config = search_config(None, None);
    let (selection, _) = Selection::start(config, vec![offer("one")]);
    assert_eq!(selection.phase(), Phase::Listing);
    assert!(selection.awaits(&Event::Entries(None)));
    assert!(!selection.awaits(&Event::Contents(None)));
    assert!(!selection.awaits(&Event::Response(Ok(Vec::new()))));
    assert!(!selection.awaits(&Event::Background(None)));
    assert!(!selection.awaits(&Event::Exists(true)));
    assert!(!selection.awaits(&Event::Written(Ok(()))));
    let (selection, _) = selection.step(Event::Entries(None));
    assert_eq!(selection.phase(), Phase::Downloading);
    assert!(selection.awaits(&Event::Response(Ok(Vec::new()))));
    assert!(!selection.awaits(&Event::Entries(None)));
}

#[test]
fn finished_machine_awaits_nothing() {
    let (selection, action) = Selection::start(search_config(None, None), Vec::new());
    assert_eq!(action, Action::Finish(None));
    assert_eq!(selection.phase(), Phase::Done);
    assert!(!selection.awaits(&Event::Entries(None)));
    assert!(!selection.awaits(&Event::Written(Ok(()))));
}

#[test]
fn event_that_is_not_awaited_is_refused() {
    let config = search_config(None, None);
    let (selection, _) = Selection::start(config, vec![offer("one")]);
    let selection = match selection.try_step(Event::Exists(true)) {
        Ok(_) => panic!("the machine took an event that it did not wait for"),
        Err(selection) => selection,
    };
    assert_eq!(selection.phase(), Phase::Listing);
    let selection = match selection.try_step(Event::Response(Ok(png_file(1, 1)))) {
        Ok(_) => panic!("the machine took an event that it did not wait for"),
        Err(selection) => selection,
    };
    assert_eq!(selection.phase(), Phase::Listing);
    let (selection, action) = selection.try_step(Event::Entries(None)).ok().unwrap();
    assert_eq!(selection.phase(), Phase::Downloading);
    assert_eq!(action, Action::Download { url: "https://example.org/one".to_string() });
}

#[test]
fn finished_machine_refuses_every_event() {
    let (selection, _) = Selection::start(search_config(None, None), Vec::new());
    let selection = selection.try_step(Event::Entries(None)).err().unwrap();
    let selection = selection.try_step(Event::Written(Ok(()))).err().unwrap();
    assert_eq!(selection.phase(), Phase::Done);
}
