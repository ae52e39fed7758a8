use comemo::Prehashed;
use typst::diag::FileResult;
use typst::foundations::{Bytes, Datetime, Dict, Str, Value};
use typst::syntax::{FileId, Source};
use typst::text::{Font, FontBook};
use typst::{Library, LibraryBuilder, World};
use typst_world::ids::FileKey;
use typst_world::page_in_bounds;
use typst_world::registry::Registry;
use typst_world::store::FileError;

struct TestWorld {
    registry: Registry,
    library: Prehashed<Library>,
    book: Prehashed<FontBook>,
}

fn snapshot(registry: Registry) -> TestWorld {
    let mut dict = Dict::new();
    for (k, v) in registry.env_inputs() {
        dict.insert(Str::from(k.as_str()), Value::Str(Str::from(v.as_str())));
    }
    let library = LibraryBuilder::default().with_inputs(dict).build();
    let book = registry.font_book().clone();
    TestWorld {
        registry,
        library: Prehashed::new(library),
        book: Prehashed::new(book),
    }
}

fn to_key(id: FileId) -> FileKey {
    let ns = id.package().map(|p| p.to_string());
    let path = id.vpath().as_rootless_path().to_string_lossy().into_owned();
    FileKey::new(ns, path)
}

fn to_file_error(e: FileError, id: FileId) -> typst::diag::FileError {
    match e {
        FileError::NotFound => {
            typst::diag::FileError::NotFound(id.vpath().as_rootless_path().to_path_buf())
        }
        FileError::InvalidEncoding => typst::diag::FileError::InvalidUtf8,
    }
}

impl World for TestWorld {
    fn library(&self) -> &Prehashed<Library> {
        &self.library
    }

    fn book(&self) -> &Prehashed<FontBook> {
        &self.book
    }

    fn main(&self) -> Source {
        self.registry.main_source().expect("main source registered").clone()
    }

    fn source(&self, id: FileId) -> FileResult<Source> {
        match self.registry.source_of(&to_key(id)) {
            Ok(s) => Ok(s.clone()),
            Err(e) => Err(to_file_error(e, id)),
        }
    }

    fn file(&self, id: FileId) -> FileResult<Bytes> {
        match self.registry.bytes_of(&to_key(id)) {
            Ok(b) => Ok(b.clone()),
            Err(e) => Err(to_file_error(e, id)),
        }
    }

    fn font(&self, index: usize) -> Option<Font> {
        self.registry.font_at(index).cloned()
    }

    fn today(&self, _offset: Option<i64>) -> Option<Datetime> {
        let (y, m, d) = self.registry.today_ymd();
        Datetime::from_ymd(y, m, d)
    }
}

fn hello_world() -> TestWorld {
    let mut reg = Registry::new();
    for data in typst_assets::fonts() {
        reg.add_font(data.to_vec());
    }
    reg.set_source("#set page(width: 10pt)\nHello".to_string());
    snapshot(reg)
}

#[test]
fn compile_hello_yields_one_page_and_renders() {
    let world = hello_world();
    let mut tracer = typst::eval::Tracer::new();
    let doc = typst::compile(&world, &mut tracer).expect("compiles");
    assert_eq!(doc.pages.len(), 1);

    let pixmap =
        typst_render::render(&doc.pages[0].frame, 2.0, typst::visualize::Color::WHITE);
    let png = pixmap.encode_png().expect("encodes");
    assert!(!png.is_empty());

    let svg = typst_svg::svg(&doc.pages[0].frame);
    assert!(!svg.is_empty());
    assert!(svg.contains("typst-text"));
}

#[test]
fn out_of_range_page_is_defined_failure() {
    let world = hello_world();
    let mut tracer = typst::eval::Tracer::new();
    let doc = typst::compile(&world, &mut tracer).expect("compiles");
    assert_eq!(doc.pages.len(), 1);
    assert!(!page_in_bounds(5, doc.pages.len()));
    assert!(page_in_bounds(0, doc.pages.len()));
    let refused = if page_in_bounds(5, doc.pages.len()) {
        Some(typst_render::render(
            &doc.pages[5].frame,
            1.0,
            typst::visualize::Color::WHITE,
        ))
    } else {
        None
    };
    assert!(refused.is_none());
}

#[test]
fn compile_reflects_registry_state_at_call() {
    let mut reg = Registry::new();
    for data in typst_assets::fonts() {
        reg.add_font(data.to_vec());
    }
    reg.set_source("One".to_string());
    let world = snapshot(reg);
    let mut tracer = typst::eval::Tracer::new();
    let doc1 = typst::compile(&world, &mut tracer).expect("compiles");
    assert_eq!(doc1.pages.len(), 1);

    let mut reg2 = Registry::new();
    for data in typst_assets::fonts() {
        reg2.add_font(data.to_vec());
    }
    reg2.set_source("Two\n#pagebreak()\nThree".to_string());
    let world2 = snapshot(reg2);
    let mut tracer2 = typst::eval::Tracer::new();
    let doc2 = typst::compile(&world2, &mut tracer2).expect("compiles");
    assert_eq!(doc2.pages.len(), 2);
}
