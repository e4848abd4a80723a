use std::collections::HashMap;

use thumbnailify::file::{get_failed_thumbnail_output, get_file_uri, get_thumbnail_hash_output};
use thumbnailify::generate::{
    begin, Action, Context, Event, Request, State, StoreStatus, Workspace,
};
use thumbnailify::hash::compute_hash;
use thumbnailify::provenance::{find_text, read_text_chunks, PngImage, SourceMeta};
use thumbnailify::thumbnail::is_thumbnail_up_to_date;
use thumbnailify::thumbnailer::{PathKind, SandboxProbe, ThumbnailerConfig};
use thumbnailify::{generate_thumbnail, ThumbnailError, ThumbnailSize};

const ROOT: &str = "/cache";
const PDF_HELPER: &str =
    "[Thumbnailer Entry]\nTryExec=pdf-thumb\nExec=/usr/bin/pdf-thumb -s %s %i %o\nMimeType=application/pdf;\n";

/// A filesystem and a process table that live in memory.
struct World {
    cwd: String,
    links: HashMap<String, String>,
    files: HashMap<String, Vec<u8>>,
    meta: HashMap<String, SourceMeta>,
    descriptors: Option<Vec<String>>,
    programs: Vec<String>,
    bwrap: bool,
    helper_exit: bool,
    helper_output: Option<Vec<u8>>,
    store: StoreStatus,
    runs: Vec<Vec<String>>,
    stores: Vec<String>,
    source_reads: usize,
    clock: u64,
    written_at: HashMap<String, u64>,
}

impl World {
    fn new() -> World {
        World {
            cwd: "/work".to_string(),
            links: HashMap::new(),
            files: HashMap::new(),
            meta: HashMap::new(),
            descriptors: Some(Vec::new()),
            programs: Vec::new(),
            bwrap: false,
            helper_exit: true,
            helper_output: None,
            store: StoreStatus::Stored,
            runs: Vec::new(),
            stores: Vec::new(),
            source_reads: 0,
            clock: 0,
            written_at: HashMap::new(),
        }
    }

    fn add_source(&mut self, path: &str, bytes: Vec<u8>, mtime: u64) {
        self.meta.insert(path.to_string(), SourceMeta { mtime, len: bytes.len() as u64 });
        self.files.insert(path.to_string(), bytes);
    }

    fn touch(&mut self, path: &str) {
        self.meta.get_mut(path).unwrap().mtime += 1;
    }

    fn canonical(&self, path: &str) -> Option<String> {
        let absolute = if path.starts_with('/') {
            path.to_string()
        } else {
            format!("{}/{}", self.cwd, path)
        };
        let mut parts: Vec<&str> = Vec::new();
        for part in absolute.split('/') {
            match part {
                "" | "." => {}
                ".." => {
                    parts.pop();
                }
                p => parts.push(p),
            }
        }
        let resolved = format!("/{}", parts.join("/"));
        let resolved = self.links.get(&resolved).cloned().unwrap_or(resolved);
        if self.meta.contains_key(&resolved) {
            Some(resolved)
        } else {
            None
        }
    }

    fn perform(&mut self, action: Action) -> Result<Event, Action> {
        self.clock += 1;
        Ok(match action {
            Action::Resolve { path } => Event::Resolved(self.canonical(&path)),
            Action::ReadEntry { artifact, source } => Event::Entry {
                artifact: self.files.get(&artifact).cloned(),
                source: self.meta.get(&source).copied(),
            },
            Action::ListHelpers => Event::Helpers(self.descriptors.clone()),
            Action::FindExecutable { name } => Event::Executable(self.programs.contains(&name)),
            Action::Prepare { dir } => Event::Prepared(Some(Workspace {
                output: format!("{}/thumb-0001.png.tmp", dir),
                sandbox: if self.bwrap {
                    Some(SandboxProbe {
                        bwrap: "/usr/bin/bwrap".to_string(),
                        bin: PathKind::Symlink,
                        lib: PathKind::Symlink,
                        lib64: PathKind::Symlink,
                        sbin: PathKind::Symlink,
                    })
                } else {
                    None
                },
            })),
            Action::Run { argv, output: _, source } => {
                self.runs.push(argv);
                Event::Exited {
                    success: self.helper_exit,
                    output: self.helper_output.clone(),
                    source: self.meta.get(&source).copied(),
                }
            }
            Action::ReadSource { source } => {
                self.source_reads += 1;
                Event::Source {
                    bytes: self.files.get(&source).cloned(),
                    source: self.meta.get(&source).copied(),
                }
            }
            Action::Store { dir, path, bytes } => {
                assert!(path.starts_with(&format!("{}/", dir)));
                if self.store == StoreStatus::Stored {
                    self.files.insert(path.clone(), bytes);
                    self.written_at.insert(path.clone(), self.clock);
                    self.stores.push(path);
                }
                Event::Stored(self.store)
            }
            done => return Err(done),
        })
    }

    fn generate(&mut self, source: &str, size: ThumbnailSize) -> Result<String, (ThumbnailError, Option<String>)> {
        let (mut state, mut action) = begin(Request {
            source_path: source.to_string(),
            size,
            cache_root: ROOT.to_string(),
        });
        for _ in 0..32 {
            match self.perform(action) {
                Ok(event) => {
                    let step = generate_thumbnail(state, event);
                    state = step.0;
                    action = step.1;
                }
                Err(Action::Ready { path }) => {
                    assert!(matches!(state, State::Finished));
                    return Ok(path);
                }
                Err(Action::Failed { error, marker }) => {
                    assert!(matches!(state, State::Finished));
                    return Err((error, marker));
                }
                Err(_) => unreachable!(),
            }
        }
        panic!("the machine did not come to an end");
    }
}

fn png_of(width: u32, height: u32, grey: u8) -> Vec<u8> {
    PngImage {
        width,
        height,
        color_type: 0,
        bit_depth: 8,
        text: vec![],
        data: vec![grey; width as usize * height as usize],
    }
    .encode()
    .unwrap()
}

fn broken_png() -> Vec<u8> {
    let mut bytes = vec![137, 80, 78, 71, 13, 10, 26, 10];
    bytes.resize(64, 0);
    bytes
}

fn thumb_path_of(source: &str, size: ThumbnailSize) -> String {
    let hash = compute_hash(&get_file_uri(source, None).unwrap());
    get_thumbnail_hash_output(ROOT, &hash, size)
}

fn fail_path_of(source: &str) -> String {
    let hash = compute_hash(&get_file_uri(source, None).unwrap());
    get_failed_thumbnail_output(ROOT, &hash)
}

fn text_of(world: &World, path: &str, keyword: &str) -> Option<String> {
    let chunks = read_text_chunks(world.files.get(path).unwrap()).unwrap();
    find_text(&chunks, keyword).cloned()
}

fn context() -> Context {
    Context {
        given: "/d/a.pdf".to_string(),
        source: "/d/a.pdf".to_string(),
        uri: "file:///d/a.pdf".to_string(),
        hash: compute_hash("file:///d/a.pdf"),
        size: ThumbnailSize::Normal,
        cache_root: ROOT.to_string(),
    }
}

#[test]
fn thumbnailer_test_generate_thumbnail() {
    let mut world = World::new();
    world.cwd = "/repo".to_string();
    world.add_source("/repo/tests/images/nasa-4019x4019.png", png_of(4019, 4019, 90), 1700000000);
    let test_image = "tests/images/nasa-4019x4019.png";

    let thumb_path = world.generate(test_image, ThumbnailSize::Normal).expect("Thumbnail generation failed");

    assert!(world.files.contains_key(&thumb_path), "Thumbnail file was not created at {:?}", thumb_path);
}

#[test]
fn test_generate_thumbnail_broken_image() {
    let mut world = World::new();
    world.cwd = "/repo".to_string();
    world.add_source("/repo/tests/images/broken.png", broken_png(), 1700000000);
    let test_image = "tests/images/broken.png";

    let result = world.generate(test_image, ThumbnailSize::Normal);
    assert!(result.is_err(), "Expected thumbnail generation to fail for a broken image");

    let file_uri = get_file_uri("/repo/tests/images/broken.png", None).expect("Failed to get file URI for broken image");
    let hash = compute_hash(&file_uri);
    let fail_marker = get_failed_thumbnail_output(ROOT, &hash);
    assert!(
        world.files.contains_key(&fail_marker),
        "Failure marker file should exist for a broken image at {:?}",
        fail_marker
    );
}

#[test]
fn happy_in_process_png() {
    let mut world = World::new();
    let source = "/pictures/nasa-4019x4019.png";
    world.add_source(source, png_of(4019, 4019, 200), 1700000000);

    let path = world.generate(source, ThumbnailSize::Normal).unwrap();

    assert_eq!(path, thumb_path_of(source, ThumbnailSize::Normal));
    assert_eq!(path, format!("/cache/thumbnails/normal/{}.png", compute_hash("file:///pictures/nasa-4019x4019.png")));
    let thumb = PngImage::decode(world.files.get(&path).unwrap()).unwrap();
    assert_eq!((thumb.width, thumb.height), (128, 128));
    assert_eq!((thumb.color_type, thumb.bit_depth), (6, 8));
    assert_eq!(thumb.data, [200, 200, 200, 255].repeat(128 * 128));
    assert_eq!(text_of(&world, &path, "Thumb::URI"), Some("file:///pictures/nasa-4019x4019.png".to_string()));
    assert_eq!(text_of(&world, &path, "Thumb::MTime"), Some("1700000000".to_string()));
    assert_eq!(
        text_of(&world, &path, "Thumb::Size"),
        Some(world.files.get(source).unwrap().len().to_string())
    );
    assert!(world.runs.is_empty());
    assert!(!world.files.contains_key(&fail_path_of(source)));
}

#[test]
fn a_generated_thumbnail_is_fresh_at_once() {
    let mut world = World::new();
    let source = "/pictures/a.png";
    world.add_source(source, png_of(300, 200, 1), 42);
    for size in [ThumbnailSize::Small, ThumbnailSize::Normal, ThumbnailSize::Large] {
        let path = world.generate(source, size).unwrap();
        assert_eq!(path, thumb_path_of(source, size));
        assert!(is_thumbnail_up_to_date(
            world.files.get(&path).map(|b| b.as_slice()),
            world.meta.get(source).copied()
        ));
    }
}

#[test]
fn cache_hit_does_no_pixel_work() {
    let mut world = World::new();
    let source = "/pictures/a.png";
    world.add_source(source, png_of(64, 64, 7), 1700000000);

    let first = world.generate(source, ThumbnailSize::Normal).unwrap();
    let written = world.written_at.get(&first).copied();
    assert_eq!(world.source_reads, 1);
    assert_eq!(world.stores.len(), 1);

    let second = world.generate(source, ThumbnailSize::Normal).unwrap();
    assert_eq!(second, first);
    assert_eq!(world.written_at.get(&first).copied(), written);
    assert_eq!(world.source_reads, 1);
    assert_eq!(world.stores.len(), 1);
}

#[test]
fn stale_cache_is_regenerated() {
    let mut world = World::new();
    let source = "/pictures/a.png";
    world.add_source(source, png_of(64, 64, 7), 1700000000);
    let path = world.generate(source, ThumbnailSize::Normal).unwrap();
    let written = world.written_at.get(&path).copied();
    assert_eq!(text_of(&world, &path, "Thumb::MTime"), Some("1700000000".to_string()));

    world.touch(source);
    let again = world.generate(source, ThumbnailSize::Normal).unwrap();

    assert_eq!(again, path);
    assert_ne!(world.written_at.get(&path).copied(), written);
    assert_eq!(world.stores.len(), 2);
    assert_eq!(text_of(&world, &path, "Thumb::MTime"), Some("1700000001".to_string()));
    assert!(is_thumbnail_up_to_date(
        world.files.get(&path).map(|b| b.as_slice()),
        world.meta.get(source).copied()
    ));
}

#[test]
fn broken_source_leaves_a_fail_marker() {
    let mut world = World::new();
    let source = "/pictures/broken.png";
    world.add_source(source, broken_png(), 1700000123);

    let result = world.generate(source, ThumbnailSize::Normal);

    let marker = fail_path_of(source);
    assert_eq!(marker, format!("/cache/thumbnails/fail/thumbnailify/{}.png", compute_hash("file:///pictures/broken.png")));
    assert_eq!(result, Err((ThumbnailError::BadImage, Some(marker.clone()))));
    let image = PngImage::decode(world.files.get(&marker).unwrap()).unwrap();
    assert_eq!((image.width, image.height, image.color_type, image.bit_depth), (1, 1, 6, 8));
    assert_eq!(image.data, vec![0, 0, 0, 0]);
    assert_eq!(text_of(&world, &marker, "Thumb::MTime"), Some("1700000123".to_string()));
    assert_eq!(text_of(&world, &marker, "Thumb::Size"), Some("64".to_string()));
    assert_eq!(text_of(&world, &marker, "Thumb::URI"), Some("file:///pictures/broken.png".to_string()));
    assert!(!world.files.contains_key(&thumb_path_of(source, ThumbnailSize::Normal)));
}

#[test]
fn a_fresh_fail_marker_answers_the_next_request() {
    let mut world = World::new();
    let source = "/pictures/broken.png";
    world.add_source(source, broken_png(), 1700000123);
    assert!(world.generate(source, ThumbnailSize::Normal).is_err());
    assert_eq!(world.source_reads, 1);

    let again = world.generate(source, ThumbnailSize::Large);

    assert_eq!(again, Err((ThumbnailError::NegativeCached, Some(fail_path_of(source)))));
    assert_eq!(world.source_reads, 1);
    assert_eq!(world.stores.len(), 1);

    // Once the source changes, the marker no longer counts.
    world.add_source(source, png_of(8, 8, 3), 1700000200);
    assert_eq!(world.generate(source, ThumbnailSize::Large), Ok(thumb_path_of(source, ThumbnailSize::Large)));
}

#[test]
fn zero_sized_source_is_a_bad_image_with_fail_marker() {
    // A PNG header that announces a width of zero.
    let mut world = World::new();
    let source = "/pictures/empty.png";
    let mut bytes = png_of(1, 1, 0);
    bytes[16..20].copy_from_slice(&[0, 0, 0, 0]);
    world.add_source(source, bytes, 5);

    let result = world.generate(source, ThumbnailSize::Normal);

    assert_eq!(result, Err((ThumbnailError::BadImage, Some(fail_path_of(source)))));
    assert!(world.files.contains_key(&fail_path_of(source)));
}

#[test]
fn missing_source_creates_no_cache_entry() {
    let mut world = World::new();
    let result = world.generate("/pictures/nowhere.png", ThumbnailSize::Normal);
    assert_eq!(result, Err((ThumbnailError::MissingSource, None)));
    assert!(world.files.is_empty());
    assert!(world.stores.is_empty());
}

#[test]
fn equivalent_paths_share_the_cache_entry() {
    let mut world = World::new();
    world.cwd = "/pictures/album".to_string();
    world.add_source("/pictures/a.png", png_of(16, 16, 9), 1);

    let direct = world.generate("/pictures/a.png", ThumbnailSize::Normal).unwrap();
    let relative = world.generate("../a.png", ThumbnailSize::Normal).unwrap();
    let dotted = world.generate("/pictures/./album/../a.png", ThumbnailSize::Normal).unwrap();

    assert_eq!(relative, direct);
    assert_eq!(dotted, direct);
    assert_eq!(world.stores.len(), 1);
}

#[test]
fn the_mime_type_is_that_of_the_path_as_given() {
    // A link with an extension to a file without one.
    let mut world = World::new();
    world.add_source("/store/0a1b2c", png_of(8, 8, 3), 7);
    world.links.insert("/pictures/photo.png".to_string(), "/store/0a1b2c".to_string());

    let path = world.generate("/pictures/photo.png", ThumbnailSize::Normal).unwrap();

    // The entry is that of the file the link points to.
    assert_eq!(path, thumb_path_of("/store/0a1b2c", ThumbnailSize::Normal));
    assert_eq!(text_of(&world, &path, "Thumb::URI"), Some("file:///store/0a1b2c".to_string()));
    // Asked for by its own name, the file has no type that anything handles.
    let mut bare = World::new();
    bare.add_source("/store/0a1b2c", png_of(8, 8, 3), 7);
    assert_eq!(bare.generate("/store/0a1b2c", ThumbnailSize::Normal), Err((ThumbnailError::NoHelper, None)));
}

#[test]
fn a_helper_image_that_names_another_time_is_fresh_once_stored() {
    let own = PngImage {
        width: 2,
        height: 2,
        color_type: 0,
        bit_depth: 8,
        text: vec![
            thumbnailify::provenance::TextChunk::new("Thumb::MTime", "1"),
            thumbnailify::provenance::TextChunk::new("Thumb::Size", "1"),
            thumbnailify::provenance::TextChunk::new("Thumb::URI", "file:///elsewhere"),
        ],
        data: vec![0; 4],
    };
    let mut world = World::new();
    let source = "/docs/paper.pdf";
    world.add_source(source, b"%PDF-1.7".to_vec(), 1700000000);
    world.descriptors = Some(vec![PDF_HELPER.to_string()]);
    world.programs = vec!["pdf-thumb".to_string()];
    world.helper_output = Some(own.encode().unwrap());

    let path = world.generate(source, ThumbnailSize::Normal).unwrap();

    assert_eq!(text_of(&world, &path, "Thumb::MTime"), Some("1700000000".to_string()));
    assert_eq!(text_of(&world, &path, "Thumb::Size"), Some("8".to_string()));
    assert_eq!(text_of(&world, &path, "Thumb::URI"), Some("file:///docs/paper.pdf".to_string()));
    assert!(is_thumbnail_up_to_date(
        world.files.get(&path).map(|b| b.as_slice()),
        world.meta.get(source).copied()
    ));
    // The second request is served from the cache: the helper does not run again.
    assert_eq!(world.generate(source, ThumbnailSize::Normal), Ok(path));
    assert_eq!(world.runs.len(), 1);
    assert_eq!(world.stores.len(), 1);
}

#[test]
fn helper_path_runs_the_command_and_adds_provenance() {
    let mut world = World::new();
    let source = "/docs/paper.pdf";
    world.add_source(source, b"%PDF-1.7".to_vec(), 1700000000);
    world.descriptors = Some(vec![PDF_HELPER.to_string()]);
    world.programs = vec!["pdf-thumb".to_string()];
    world.helper_output = Some(png_of(90, 128, 255));

    let path = world.generate(source, ThumbnailSize::Normal).unwrap();

    assert_eq!(path, thumb_path_of(source, ThumbnailSize::Normal));
    assert_eq!(
        world.runs,
        vec![vec![
            "/usr/bin/pdf-thumb".to_string(),
            "-s".to_string(),
            "128".to_string(),
            "/docs/paper.pdf".to_string(),
            "/cache/thumbnails/normal/thumb-0001.png.tmp".to_string(),
        ]]
    );
    let thumb = PngImage::decode(world.files.get(&path).unwrap()).unwrap();
    assert_eq!((thumb.width, thumb.height, thumb.color_type, thumb.bit_depth), (90, 128, 0, 8));
    assert_eq!(text_of(&world, &path, "Thumb::URI"), Some("file:///docs/paper.pdf".to_string()));
    assert_eq!(text_of(&world, &path, "Thumb::MTime"), Some("1700000000".to_string()));
    assert_eq!(text_of(&world, &path, "Thumb::Size"), Some("8".to_string()));
    assert_eq!(world.source_reads, 0);
    assert_eq!(world.stores, vec![path]);
}

#[test]
fn helper_runs_under_the_sandbox_where_there_is_one() {
    let mut world = World::new();
    let source = "/docs/paper.pdf";
    world.add_source(source, b"%PDF-1.7".to_vec(), 1700000000);
    world.descriptors = Some(vec![PDF_HELPER.to_string()]);
    world.programs = vec!["pdf-thumb".to_string()];
    world.helper_output = Some(png_of(2, 2, 255));
    world.bwrap = true;

    world.generate(source, ThumbnailSize::Large).unwrap();

    let argv = &world.runs[0];
    assert_eq!(argv[0], "/usr/bin/bwrap");
    let end = argv.iter().position(|a| a == "--").unwrap();
    assert_eq!(
        &argv[end - 6..end],
        &[
            "--bind".to_string(),
            "/cache/thumbnails/large".to_string(),
            "/cache/thumbnails/large".to_string(),
            "--ro-bind".to_string(),
            "/docs/paper.pdf".to_string(),
            "/docs/paper.pdf".to_string(),
        ][..]
    );
    assert_eq!(
        &argv[end + 1..],
        &[
            "/usr/bin/pdf-thumb".to_string(),
            "-s".to_string(),
            "256".to_string(),
            "/docs/paper.pdf".to_string(),
            "/cache/thumbnails/large/thumb-0001.png.tmp".to_string(),
        ][..]
    );
}

#[test]
fn helper_failure_is_negatively_cached() {
    let mut world = World::new();
    let source = "/docs/paper.pdf";
    world.add_source(source, b"%PDF-1.7".to_vec(), 1700000000);
    world.descriptors = Some(vec![PDF_HELPER.to_string()]);
    world.programs = vec!["pdf-thumb".to_string()];
    world.helper_exit = false;

    let first = world.generate(source, ThumbnailSize::Normal);
    let marker = fail_path_of(source);
    assert_eq!(first, Err((ThumbnailError::HelperFailed, Some(marker.clone()))));
    assert!(world.files.contains_key(&marker));
    assert_eq!(text_of(&world, &marker, "Thumb::MTime"), Some("1700000000".to_string()));
    assert_eq!(world.runs.len(), 1);

    let second = world.generate(source, ThumbnailSize::Normal);
    assert_eq!(second, Err((ThumbnailError::NegativeCached, Some(marker))));
    assert_eq!(world.runs.len(), 1);
}

#[test]
fn a_helper_that_leaves_no_png_has_failed() {
    let mut world = World::new();
    let source = "/docs/paper.pdf";
    world.add_source(source, b"%PDF-1.7".to_vec(), 1700000000);
    world.descriptors = Some(vec![PDF_HELPER.to_string()]);
    world.programs = vec!["pdf-thumb".to_string()];

    world.helper_output = None;
    assert_eq!(
        world.generate(source, ThumbnailSize::Normal),
        Err((ThumbnailError::HelperFailed, Some(fail_path_of(source))))
    );

    world.touch(source);
    world.helper_output = Some(b"".to_vec());
    assert_eq!(
        world.generate(source, ThumbnailSize::Normal),
        Err((ThumbnailError::HelperFailed, Some(fail_path_of(source))))
    );
}

#[test]
fn no_helper_is_not_negatively_cached() {
    let mut world = World::new();
    let source = "/docs/paper.pdf";
    world.add_source(source, b"%PDF-1.7".to_vec(), 1700000000);

    assert_eq!(world.generate(source, ThumbnailSize::Normal), Err((ThumbnailError::NoHelper, None)));
    assert!(world.stores.is_empty());

    // Once a helper is installed the same request succeeds.
    world.descriptors = Some(vec![PDF_HELPER.to_string()]);
    world.programs = vec!["pdf-thumb".to_string()];
    world.helper_output = Some(png_of(2, 2, 0));
    assert!(world.generate(source, ThumbnailSize::Normal).is_ok());
}

#[test]
fn missing_helper_program_is_not_negatively_cached() {
    let mut world = World::new();
    let source = "/docs/paper.pdf";
    world.add_source(source, b"%PDF-1.7".to_vec(), 1700000000);
    world.descriptors = Some(vec![PDF_HELPER.to_string()]);

    assert_eq!(world.generate(source, ThumbnailSize::Normal), Err((ThumbnailError::HelperMissing, None)));
    assert!(world.stores.is_empty());
    assert!(world.runs.is_empty());
}

#[test]
fn the_mime_type_is_guessed_from_the_extension() {
    let helper = |mime: &str| format!("[Thumbnailer Entry]\nExec=tool %i %o\nMimeType={}\n", mime);
    for (source, mime) in [
        ("/d/a.pdf", "application/pdf"),
        ("/d/a.PDF", "application/pdf"),
        ("/d/a.mp4", "video/mp4"),
        ("/d/a.png", "image/png"),
        ("/d/a.tar.gz", "application/gzip"),
        ("/d/noextension", "application/octet-stream"),
        ("/d/a.unknown-extension", "application/octet-stream"),
    ] {
        let mut world = World::new();
        world.add_source(source, b"data".to_vec(), 1);
        world.helper_output = Some(png_of(1, 1, 0));
        world.descriptors = Some(vec![helper(mime)]);
        assert!(world.generate(source, ThumbnailSize::Normal).is_ok());
        assert_eq!(world.runs.len(), 1);

        world.descriptors = Some(vec![helper("text/x-other")]);
        world.touch(source);
        assert!(world.generate(source, ThumbnailSize::Normal).is_err());
        assert_eq!(world.runs.len(), 1);
    }
}

#[test]
fn without_a_helper_the_codec_serves_the_image_types_it_reads() {
    for source in ["/p/a.png", "/p/a.jpg", "/p/a.gif", "/p/a.bmp", "/p/a.webp"] {
        let mut world = World::new();
        world.add_source(source, png_of(4, 4, 9), 1);
        assert_eq!(world.generate(source, ThumbnailSize::Small), Ok(thumb_path_of(source, ThumbnailSize::Small)));
        assert_eq!(world.source_reads, 1);
    }
    for source in ["/p/a.pdf", "/p/a.svg", "/p/a.txt", "/p/a", "/p/a.png.bak"] {
        let mut world = World::new();
        world.add_source(source, png_of(4, 4, 9), 1);
        assert_eq!(world.generate(source, ThumbnailSize::Small), Err((ThumbnailError::NoHelper, None)));
        assert_eq!(world.source_reads, 0);
        assert!(world.stores.is_empty());
    }
}

#[test]
fn a_helper_takes_precedence_over_the_codec() {
    let mut world = World::new();
    let source = "/pictures/a.png";
    world.add_source(source, png_of(8, 8, 1), 1);
    world.descriptors = Some(vec!["[Thumbnailer Entry]\nExec=png-tool %u %o\nMimeType=image/png\n".to_string()]);
    world.helper_output = Some(png_of(4, 4, 2));

    world.generate(source, ThumbnailSize::Small).unwrap();

    assert_eq!(
        world.runs,
        vec![vec![
            "png-tool".to_string(),
            "file:///pictures/a.png".to_string(),
            "/cache/thumbnails/small/thumb-0001.png.tmp".to_string(),
        ]]
    );
    assert_eq!(world.source_reads, 0);
}

#[test]
fn malformed_descriptors_surface_only_without_a_helper() {
    let mut world = World::new();
    let source = "/docs/paper.pdf";
    world.add_source(source, b"%PDF-1.7".to_vec(), 1700000000);
    world.descriptors = Some(vec!["[Thumbnailer Entry\n".to_string()]);
    assert_eq!(world.generate(source, ThumbnailSize::Normal), Err((ThumbnailError::BadConfig, None)));

    world.descriptors = Some(vec!["[Thumbnailer Entry\n".to_string(), PDF_HELPER.to_string()]);
    world.programs = vec!["pdf-thumb".to_string()];
    world.helper_output = Some(png_of(2, 2, 0));
    assert!(world.generate(source, ThumbnailSize::Normal).is_ok());
}

#[test]
fn a_command_that_cannot_be_split_or_is_empty_is_malformed() {
    let mut world = World::new();
    let source = "/docs/paper.pdf";
    world.add_source(source, b"%PDF-1.7".to_vec(), 1700000000);
    world.descriptors = Some(vec!["[Thumbnailer Entry]\nExec=tool 'x\nMimeType=application/pdf\n".to_string()]);
    assert_eq!(world.generate(source, ThumbnailSize::Normal), Err((ThumbnailError::BadConfig, None)));
    assert!(world.runs.is_empty());
}

#[test]
fn unreadable_helper_directories_are_an_io_error() {
    let mut world = World::new();
    let source = "/pictures/a.png";
    world.add_source(source, png_of(8, 8, 1), 1);
    world.descriptors = None;
    assert_eq!(world.generate(source, ThumbnailSize::Normal), Err((ThumbnailError::Io, None)));
}

#[test]
fn a_failed_rename_is_a_commit_error() {
    let mut world = World::new();
    let source = "/pictures/a.png";
    world.add_source(source, png_of(8, 8, 1), 1);
    world.store = StoreStatus::RenameFailed;
    assert_eq!(world.generate(source, ThumbnailSize::Normal), Err((ThumbnailError::Commit, None)));
    world.store = StoreStatus::WriteFailed;
    assert_eq!(world.generate(source, ThumbnailSize::Normal), Err((ThumbnailError::Io, None)));
    assert!(world.files.get(&thumb_path_of(source, ThumbnailSize::Normal)).is_none());
}

#[test]
fn a_helper_image_that_png_cannot_write_is_a_provenance_error() {
    let state = State::Running(context());
    // A palette image: its palette is not carried over, so it cannot be written again.
    let indexed = PngImage { width: 1, height: 1, color_type: 3, bit_depth: 8, text: vec![], data: vec![0] };
    assert_eq!(indexed.encode(), Err(ThumbnailError::Provenance));
    let rgb = PngImage { width: 1, height: 1, color_type: 2, bit_depth: 8, text: vec![], data: vec![1, 2, 3] };
    let (next, action) = generate_thumbnail(
        state,
        Event::Exited {
            success: true,
            output: Some(rgb.encode().unwrap()),
            source: Some(SourceMeta { mtime: 1, len: 2 }),
        },
    );
    assert!(matches!(next, State::Committing(_)));
    match action {
        Action::Store { dir, path, bytes } => {
            assert_eq!(dir, "/cache/thumbnails/normal");
            assert_eq!(path, format!("/cache/thumbnails/normal/{}.png", compute_hash("file:///d/a.pdf")));
            let stored = PngImage::decode(&bytes).unwrap();
            assert_eq!(stored.data, vec![1, 2, 3]);
        }
        _ => panic!("expected a store"),
    }
}

#[test]
fn a_palette_image_from_a_helper_is_stored_as_colours() {
    // 2 x 1, indexed: a red and a blue pixel.
    let indexed: [u8; 86] = [
        137, 80, 78, 71, 13, 10, 26, 10, 0, 0, 0, 13, 73, 72, 68, 82, 0, 0, 0, 2, 0, 0, 0, 1, 8, 3,
        0, 0, 0, 195, 252, 143, 184, 0, 0, 0, 6, 80, 76, 84, 69, 255, 0, 0, 0, 0, 255, 108, 161,
        253, 142, 0, 0, 0, 11, 73, 68, 65, 84, 120, 156, 99, 96, 96, 4, 0, 0, 4, 0, 2, 191, 122,
        63, 74, 0, 0, 0, 0, 73, 69, 78, 68, 174, 66, 96, 130,
    ];
    let decoded = PngImage::decode(&indexed).unwrap();
    assert_eq!((decoded.width, decoded.height, decoded.color_type, decoded.bit_depth), (2, 1, 2, 8));
    assert_eq!(decoded.data, vec![255, 0, 0, 0, 0, 255]);

    let mut world = World::new();
    let source = "/docs/paper.pdf";
    world.add_source(source, b"%PDF-1.7".to_vec(), 1700000000);
    world.descriptors = Some(vec![PDF_HELPER.to_string()]);
    world.programs = vec!["pdf-thumb".to_string()];
    world.helper_output = Some(indexed.to_vec());

    let path = world.generate(source, ThumbnailSize::Normal).unwrap();

    let stored = PngImage::decode(world.files.get(&path).unwrap()).unwrap();
    assert_eq!((stored.width, stored.height, stored.color_type, stored.bit_depth), (2, 1, 2, 8));
    assert_eq!(stored.data, vec![255, 0, 0, 0, 0, 255]);
    assert_eq!(text_of(&world, &path, "Thumb::MTime"), Some("1700000000".to_string()));
}

#[test]
fn a_helper_that_cannot_be_started_is_an_io_error() {
    let (next, action) = generate_thumbnail(State::Running(context()), Event::Unstarted);
    assert!(matches!(next, State::Finished));
    assert!(matches!(action, Action::Failed { error: ThumbnailError::Io, marker: None }));
}

#[test]
fn a_source_that_vanishes_is_missing() {
    let (next, action) = generate_thumbnail(
        State::Rendering(context()),
        Event::Source { bytes: Some(png_of(2, 2, 0)), source: None },
    );
    assert!(matches!(next, State::Finished));
    assert!(matches!(action, Action::Failed { error: ThumbnailError::MissingSource, marker: None }));
    let (_, action) = generate_thumbnail(
        State::Running(context()),
        Event::Exited { success: true, output: Some(png_of(2, 2, 0)), source: None },
    );
    assert!(matches!(action, Action::Failed { error: ThumbnailError::MissingSource, marker: None }));
    let (_, action) = generate_thumbnail(
        State::Rendering(context()),
        Event::Source { bytes: None, source: Some(SourceMeta { mtime: 1, len: 2 }) },
    );
    assert!(matches!(action, Action::Failed { error: ThumbnailError::Io, marker: None }));
}

#[test]
fn an_event_out_of_turn_ends_the_request() {
    let (next, action) = generate_thumbnail(State::Selecting(context()), Event::Executable(true));
    assert!(matches!(next, State::Finished));
    assert!(matches!(action, Action::Failed { error: ThumbnailError::Io, marker: None }));
    let (next, action) = generate_thumbnail(State::Finished, Event::Stored(StoreStatus::Stored));
    assert!(matches!(next, State::Finished));
    assert!(matches!(action, Action::Failed { error: ThumbnailError::Io, marker: None }));
}

#[test]
fn try_exec_is_looked_for_before_anything_is_prepared() {
    let helper = ThumbnailerConfig {
        try_exec: Some("pdf-thumb".to_string()),
        exec_line: "pdf-thumb %i %o".to_string(),
        mime_types: vec!["application/pdf".to_string()],
    };
    let (next, action) = generate_thumbnail(State::Probing(context(), helper), Event::Executable(true));
    assert!(matches!(next, State::Preparing(_, _)));
    match action {
        Action::Prepare { dir } => assert_eq!(dir, "/cache/thumbnails/normal"),
        _ => panic!("expected the workspace to be prepared"),
    }
}

#[test]
fn a_relative_source_path_has_no_uri() {
    let (state, _) = begin(Request {
        source_path: "a.png".to_string(),
        size: ThumbnailSize::Normal,
        cache_root: ROOT.to_string(),
    });
    // A driver that hands back a path that is not absolute.
    let (next, action) = generate_thumbnail(state, Event::Resolved(Some("a.png".to_string())));
    assert!(matches!(next, State::Finished));
    assert!(matches!(action, Action::Failed { error: ThumbnailError::Io, marker: None }));
}
