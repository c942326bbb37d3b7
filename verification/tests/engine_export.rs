//! The engine boundary: per-page SVG rendering, PDF bytes, and the
//! outward failure string.

use typst::diag::{FileError, FileResult};
use typst::foundations::{Bytes, Datetime};
use typst::layout::PagedDocument;
use typst::syntax::{FileId, Source, VirtualPath};
use typst::text::{Font, FontBook};
use typst::utils::LazyHash;
use typst::{Library, World};

use typster::engine::{join_failure, pdf_bytes, render_pages_svg};

struct FixedWorld {
    library: LazyHash<Library>,
    book: LazyHash<FontBook>,
    main: FileId,
    source: Source,
}

impl FixedWorld {
    fn new(text: &str) -> FixedWorld {
        let main = FileId::new(None, VirtualPath::new("main.typ"));
        FixedWorld {
            library: LazyHash::new(Library::default()),
            book: LazyHash::new(FontBook::new()),
            main,
            source: Source::new(main, text.to_string()),
        }
    }
}

impl World for FixedWorld {
    fn library(&self) -> &LazyHash<Library> {
        &self.library
    }

    fn book(&self) -> &LazyHash<FontBook> {
        &self.book
    }

    fn main(&self) -> FileId {
        self.main
    }

    fn source(&self, id: FileId) -> FileResult<Source> {
        if id == self.main {
            Ok(self.source.clone())
        } else {
            Err(FileError::NotFound(id.vpath().as_rootless_path().into()))
        }
    }

    fn file(&self, id: FileId) -> FileResult<Bytes> {
        Err(FileError::NotFound(id.vpath().as_rootless_path().into()))
    }

    fn font(&self, _index: usize) -> Option<Font> {
        None
    }

    fn today(&self, _offset: Option<i64>) -> Option<Datetime> {
        None
    }
}

#[test]
fn svg_export_yields_one_string_per_page_in_order() {
    let world = FixedWorld::new("#pagebreak()");
    let document: PagedDocument = typst::compile(&world).output.expect("an empty page layout");
    assert!(document.pages.len() >= 2);
    let svgs = render_pages_svg(&document.pages);
    assert_eq!(svgs.len(), document.pages.len());
    for svg in &svgs {
        assert!(svg.starts_with("<svg"));
    }
}

#[test]
fn pdf_export_yields_pdf_bytes() {
    let world = FixedWorld::new("");
    let document: PagedDocument = typst::compile(&world).output.expect("an empty page layout");
    let bytes = pdf_bytes(&document).expect("a well-formed empty document");
    assert!(bytes.starts_with(b"%PDF-"));
}

#[test]
fn failure_strings_join_diagnostics_behind_the_phase() {
    assert_eq!(
        join_failure("Compilation", &vec!["a".to_string(), "b".to_string()]),
        "Compilation failed: a, b"
    );
    assert_eq!(join_failure("Compilation", &vec![]), "Compilation failed: ");
}
