//! A wallpaper on its way from a post in the feed to a file on disk: what is
//! known of it, and what each stage of the search adds.

use crate::cache::find_cached;
use crate::cache::is_cache_hit;
use crate::cache::is_cache_miss;
use crate::cache::texts;
use crate::configuration::Configuration;
use crate::configuration::ConfigurationView;
use crate::filename::file_name;
use crate::filename::filename;
use crate::filename::join;
use crate::filename::path_in;
use crate::image::header_of;
use crate::image::inspect;
use crate::image::usable;
use crate::image::Header;
use crate::image::ImageFormat;
use crate::ratio::MEGAPIXEL;
use crate::text::chars_of;
use crate::text::contains;
use crate::text::copy_text;
use crate::text::occurs_in;
use crate::text::slice_view;
use crate::text::text_view;
use vstd::prelude::*;

verus! {


/// A picture that a post offers. Title and address come from the feed; format
/// and size are known once the bytes of the picture have been seen; the file
/// is known once the picture is on disk.
#[derive(Debug, PartialEq, Eq)]
pub struct Wallpaper {
    pub title: String,
    pub url: String,
    pub format: Option<ImageFormat>,
    /// The file in which this wallpaper is kept, or `None` while it is not on disk.
    pub file: Option<String>,
    /// Width and height in pixels, or `None` while the picture has not been seen.
    pub dimensions: Option<(u32, u32)>,
}

/// The mathematical value of a `Wallpaper`.
pub ghost struct WallpaperView {
    pub title: Seq<char>,
    pub url: Seq<char>,
    pub format: Option<ImageFormat>,
    pub file: Option<Seq<char>>,
    pub dimensions: Option<(u32, u32)>,
}

impl View for Wallpaper {
    type V = WallpaperView;

    open spec fn view(&self) -> WallpaperView {
        WallpaperView {
            title: self.title@,
            url: self.url@,
            format: self.format,
            file: text_view(self.file),
            dimensions: self.dimensions,
        }
    }
}

/// Why a wallpaper could not be fetched or kept.
#[derive(Debug, PartialEq, Eq)]
pub enum Failure {
    /// The picture could not be fetched; the text says why.
    Fetch(String),
    /// The bytes are no picture in a format that can serve as a wallpaper.
    UnsupportedFormat,
    /// The picture could not be written to disk; the text says why.
    Persist(String),
}

/// The mathematical value of a `Failure`.
pub ghost enum FailureView {
    Fetch(Seq<char>),
    UnsupportedFormat,
    Persist(Seq<char>),
}

impl View for Failure {
    type V = FailureView;

    open spec fn view(&self) -> FailureView {
        match self {
            Failure::Fetch(reason) => FailureView::Fetch(reason@),
            Failure::UnsupportedFormat => FailureView::UnsupportedFormat,
            Failure::Persist(reason) => FailureView::Persist(reason@),
        }
    }
}

impl WallpaperView {
    /// A wallpaper is well formed when format and size are known together.
    pub open spec fn wf(self) -> bool {
        self.format is Some <==> self.dimensions is Some
    }

    /// The name of the file of this wallpaper.
    pub open spec fn filename(self) -> Seq<char> {
        filename(self.title, self.format)
    }

    /// The path of the file of this wallpaper in `dir`.
    pub open spec fn path_in(self, dir: Seq<char>) -> Seq<char> {
        path_in(dir, self.filename())
    }

    /// This wallpaper as it leaves the feed: nothing is known but title and
    /// address.
    pub open spec fn fresh(title: Seq<char>, url: Seq<char>) -> WallpaperView {
        WallpaperView { title, url, format: None, file: None, dimensions: None }
    }

    /// This wallpaper once the header of its picture has been read. Where the
    /// header is none of a format that can serve, nothing changes.
    pub open spec fn with_header(self, header: Option<Header>) -> WallpaperView {
        match header {
            Some(header) => match header.supported() {
                Some((format, dimensions)) => WallpaperView {
                    format: Some(format),
                    dimensions: Some(dimensions),
                    ..self
                },
                None => self,
            },
            None => self,
        }
    }

    /// This wallpaper once it is known to be kept in the file `path`.
    pub open spec fn kept_in(self, path: Seq<char>) -> WallpaperView {
        WallpaperView { file: Some(path), ..self }
    }
}

/// The values of a list of wallpapers.
pub open spec fn views(wallpapers: Seq<Wallpaper>) -> Seq<WallpaperView> {
    wallpapers.map_values(|w: Wallpaper| w@)
}

impl WallpaperView {
    /// Whether the picture is wide enough, tall enough and big enough for the
    /// configuration. A bound that the configuration leaves open is met by
    /// every picture; a picture of unknown size meets nothing.
    pub open spec fn meets(self, config: ConfigurationView) -> bool {
        match self.dimensions {
            Some((width, height)) => {
                &&& config.min_ratio matches Some(bound) ==> bound.min_ratio_met(
                    width as int,
                    height as int,
                )
                &&& config.max_ratio matches Some(bound) ==> bound.max_ratio_met(
                    width as int,
                    height as int,
                )
                &&& config.min_res matches Some(bound) ==> bound.min_size_met(
                    width as int,
                    height as int,
                )
            },
            None => false,
        }
    }

    /// Whether this wallpaper counts as the background that is set now: its
    /// file name stands in the path of that background. Where that path is
    /// unknown, every wallpaper counts as set.
    pub open spec fn is_current(self, active: Option<Seq<char>>) -> bool {
        match active {
            Some(path) => occurs_in(path, self.filename()),
            None => true,
        }
    }
}

/// The file name of a wallpaper depends on nothing but its title and its
/// format: two wallpapers that agree in both have the same file name, and
/// the same path in every directory.
pub proof fn lemma_filename_is_determined(a: WallpaperView, b: WallpaperView, dir: Seq<char>)
    requires
        a.title == b.title,
        a.format == b.format,
    ensures
        a.filename() == b.filename(),
        a.path_in(dir) == b.path_in(dir),
{
}

/// A wallpaper that is found on disk is known from what lies there: once
/// `update_state` has recorded the file and `update_with_image_data` has
/// taken the bytes of that file, the wallpaper has the path of the file that
/// was found, and the format and the size that the bytes tell, where they are
/// a picture in a format that can serve. Title and address are as they were.
pub proof fn lemma_found_on_disk_is_known(
    wallpaper: WallpaperView,
    dir: Seq<char>,
    names: Seq<Seq<char>>,
    at: int,
    data: Seq<u8>,
)
    requires
        wallpaper.wf(),
        is_cache_hit(names, wallpaper.filename(), at),
        usable(header_of(data)),
    ensures
        ({
            let path = path_in(dir, names[at]);
            let known = wallpaper.kept_in(path).with_header(header_of(data));
            &&& known.file == Some(path)
            &&& header_of(data)->0.supported() == Some((known.format->0, known.dimensions->0))
            &&& known.format is Some
            &&& known.dimensions is Some
            &&& known.title == wallpaper.title
            &&& known.url == wallpaper.url
            &&& known.wf()
        }),
{
}

/// Keeping a wallpaper twice in the same directory is keeping it once: the
/// second time its file has the same path, and nothing of the wallpaper
/// changes.
pub proof fn lemma_saving_twice_is_saving_once(wallpaper: WallpaperView, dir: Seq<char>)
    ensures
        ({
            let once = wallpaper.kept_in(wallpaper.path_in(dir));
            let twice = once.kept_in(once.path_in(dir));
            &&& once.path_in(dir) == wallpaper.path_in(dir)
            &&& once.file == Some(wallpaper.path_in(dir))
            &&& twice == once
        }),
{
}

/// The bounds of a configuration are inclusive: a picture whose ratio of
/// width to height is exactly the least and the greatest that the
/// configuration allows, and whose size is exactly the least that it allows,
/// meets the configuration.
pub proof fn lemma_meets_at_the_bounds(wallpaper: WallpaperView, config: ConfigurationView)
    requires
        config.wf(),
        wallpaper.dimensions matches Some((width, height)) && height > 0 && {
            &&& config.min_ratio matches Some(bound) ==> width * bound.denominator
                == bound.numerator * height
            &&& config.max_ratio matches Some(bound) ==> width * bound.denominator
                == bound.numerator * height
            &&& config.min_res matches Some(bound) ==> width * height * bound.denominator
                == bound.numerator * MEGAPIXEL
        },
    ensures
        wallpaper.meets(config),
{
}

/// A picture that lies outside a bound of the configuration does not meet
/// it: one that is narrower than the least ratio, wider than the greatest, or
/// smaller than the least size.
pub proof fn lemma_fails_outside_the_bounds(wallpaper: WallpaperView, config: ConfigurationView)
    requires
        config.wf(),
        wallpaper.dimensions matches Some((width, height)) && height > 0 && {
            ||| config.min_ratio matches Some(bound) && width * bound.denominator
                < bound.numerator * height
            ||| config.max_ratio matches Some(bound) && width * bound.denominator
                > bound.numerator * height
            ||| config.min_res matches Some(bound) && width * height * bound.denominator
                < bound.numerator * MEGAPIXEL
        },
    ensures
        !wallpaper.meets(config),
{
}

impl Clone for Wallpaper {
    /// A copy of this wallpaper.
    fn clone(&self) -> (copy: Wallpaper)
        ensures
            copy@ == self@,
    {
        Wallpaper {
            title: self.title.clone(),
            url: self.url.clone(),
            format: self.format,
            file: copy_text(&self.file),
            dimensions: self.dimensions,
        }
    }
}

impl Wallpaper {
    /// A wallpaper as it leaves the feed.
    pub fn new(title: String, url: String) -> (w: Wallpaper)
        ensures
            w@ == WallpaperView::fresh(title@, url@),
            w@.wf(),
    {
        Wallpaper { title, url, format: None, file: None, dimensions: None }
    }

    /// Looks for this wallpaper among the files of the directory in which
    /// pictures are kept, whose names `names` lists. The file is the last one
    /// whose name begins with the file name of this wallpaper. Where there is
    /// one, its path in the directory becomes the file of this wallpaper, and
    /// its place in the list is returned; else nothing changes.
    pub fn update_state(&mut self, image_directory: &str, names: &Vec<String>) -> (r: Option<usize>)
        ensures
            match r {
                Some(at) => is_cache_hit(texts(names@), old(self)@.filename(), at as int)
                    && final(self)@ == old(self)@.kept_in(
                    path_in(image_directory@, names@[at as int]@),
                ),
                None => is_cache_miss(texts(names@), old(self)@.filename()) && final(self)@
                    == old(self)@,
            },
            old(self)@.wf() ==> final(self)@.wf(),
    {
        let name = self.construct_filename();
        match find_cached(names, name.as_str()) {
            Some(at) => {
                self.file = Some(join(image_directory, names[at].as_str()));
                Some(at)
            },
            None => None,
        }
    }

    /// Takes the answer to the request for the picture. Where the request
    /// failed, so does this, with the reason. Where the bytes are no picture
    /// in a format that can serve, it fails too. In both cases nothing
    /// changes. Else format and size are taken from the bytes, and the bytes
    /// are handed back.
    pub fn download(&mut self, response: Result<Vec<u8>, String>) -> (r: Result<Vec<u8>, Failure>)
        ensures
            match response {
                Ok(data) => final(self)@ == old(self)@.with_header(
                    header_of(data@),
                ) && if usable(header_of(data@)) {
                    r == Ok::<Vec<u8>, Failure>(data)
                } else {
                    r matches Err(Failure::UnsupportedFormat)
                },
                Err(reason) => final(self)@ == old(self)@ && r == Err::<Vec<u8>, Failure>(
                    Failure::Fetch(reason),
                ),
            },
            old(self)@.wf() ==> final(self)@.wf(),
    {
        match response {
            Ok(data) => match self.update_with_image_data(data.as_slice()) {
                Ok(()) => Ok(data),
                Err(failure) => Err(failure),
            },
            Err(reason) => Err(Failure::Fetch(reason)),
        }
    }

    /// Takes the outcome of keeping the picture in its file in the directory
    /// `dir`. Where the picture is in that file now, whether it was written or
    /// had been there before, the path of the file becomes the file of this
    /// wallpaper. Where writing failed, so does this, with the reason, and
    /// nothing changes.
    pub fn save(&mut self, dir: &str, stored: Result<(), String>) -> (r: Result<(), Failure>)
        ensures
            match stored {
                Ok(_) => r is Ok && final(self)@ == old(self)@.kept_in(old(self)@.path_in(dir@)),
                Err(reason) => final(self)@ == old(self)@ && r == Err::<(), Failure>(
                    Failure::Persist(reason),
                ),
            },
            old(self)@.wf() ==> final(self)@.wf(),
    {
        match stored {
            Ok(_) => {
                self.file = self.construct_path(dir);
                Ok(())
            },
            Err(reason) => Err(Failure::Persist(reason)),
        }
    }

    /// Whether the picture is wide enough, tall enough and big enough for the
    /// configuration.
    pub fn meets(&self, config: &Configuration) -> (r: bool)
        ensures
            r == self@.meets(config@),
    {
        match self.dimensions {
            Some((width, height)) => {
                let wide_enough = match &config.min_ratio {
                    Some(bound) => bound.check_min_ratio(width, height),
                    None => true,
                };
                let tall_enough = match &config.max_ratio {
                    Some(bound) => bound.check_max_ratio(width, height),
                    None => true,
                };
                let big_enough = match &config.min_res {
                    Some(bound) => bound.check_min_size(width, height),
                    None => true,
                };
                wide_enough && tall_enough && big_enough
            },
            None => false,
        }
    }

    /// Whether this wallpaper counts as the background that is set now, whose
    /// path is `active` where it is known.
    pub fn is_current(&self, active: Option<&str>) -> (r: bool)
        ensures
            r == self@.is_current(slice_view(active)),
    {
        match active {
            Some(path) => {
                let name = self.construct_filename();
                contains(&chars_of(path), &chars_of(name.as_str()))
            },
            None => true,
        }
    }

    /// The name under which this wallpaper is kept on disk. It depends on
    /// title and format alone.
    pub fn construct_filename(&self) -> (name: String)
        ensures
            name@ == self@.filename(),
    {
        file_name(self.title.as_str(), self.format)
    }

    /// The path under which this wallpaper is kept in the directory `dir`.
    /// There always is one.
    pub fn construct_path(&self, dir: &str) -> (path: Option<String>)
        ensures
            path matches Some(p) && p@ == self@.path_in(dir@),
    {
        let name = self.construct_filename();
        Some(join(dir, name.as_str()))
    }

    /// Takes format and size from the header of the picture. It fails, and
    /// changes nothing, where there is no header or the format cannot serve.
    pub fn apply_header(&mut self, header: Option<Header>) -> (r: Result<(), Failure>)
        ensures
            final(self)@ == old(self)@.with_header(header),
            usable(header) ==> r is Ok,
            !usable(header) ==> r matches Err(Failure::UnsupportedFormat),
            old(self)@.wf() ==> final(self)@.wf(),
    {
        let found = match header {
            Some(header) => header.format_and_size(),
            None => None,
        };
        match found {
            Some((format, dimensions)) => {
                self.format = Some(format);
                self.dimensions = Some(dimensions);
                Ok(())
            },
            None => Err(Failure::UnsupportedFormat),
        }
    }

    /// Takes format and size from the bytes of the picture. It fails, and
    /// changes nothing, where the bytes are no picture in a format that can
    /// serve.
    pub fn update_with_image_data(&mut self, data: &[u8]) -> (r: Result<(), Failure>)
        ensures
            final(self)@ == old(self)@.with_header(header_of(data@)),
            usable(header_of(data@)) ==> r is Ok,
            !usable(header_of(data@)) ==> r matches Err(Failure::UnsupportedFormat),
            old(self)@.wf() ==> final(self)@.wf(),
    {
        let header = inspect(data);
        self.apply_header(header)
    }
}

} // verus!
