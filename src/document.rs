//! The indexable form of a record.
use vstd::prelude::*;
use crate::record::{book_of_fields, Book, ROW_FIELDS};

verus! {

/// One record as it is handed to the index: every field of the record, plus
/// whether a publisher is known, so that searches can filter on that without
/// matching empty text.
#[derive(Clone, Debug)]
pub struct BookDocument {
    pub id: u64,
    pub title: String,
    pub author: String,
    pub publisher_exist: bool,
    pub publisher: String,
    pub extension: String,
    pub filesize: u64,
    pub language: String,
    pub year: u64,
    pub pages: u64,
    pub isbn: String,
    pub ipfs_cid: String,
}

/// The document of record `b`.
pub open spec fn spec_document(b: Book) -> BookDocument {
    BookDocument {
        id: b.id,
        title: b.title,
        author: b.author,
        publisher_exist: b.publisher@.len() > 0,
        publisher: b.publisher,
        extension: b.extension,
        filesize: b.filesize,
        language: b.language,
        year: b.year,
        pages: b.pages,
        isbn: b.isbn,
        ipfs_cid: b.ipfs_cid,
    }
}

/// Transcribes a record field for field and derives the publisher flag,
/// which is set exactly when the publisher text is not empty.
pub fn map_record(book: Book) -> (d: BookDocument)
    ensures
        d == spec_document(book),
        d.publisher_exist == (book.publisher@.len() > 0),
{
    let publisher_exist = !book.publisher.as_str().is_empty();
    BookDocument {
        id: book.id,
        title: book.title,
        author: book.author,
        publisher_exist,
        publisher: book.publisher,
        extension: book.extension,
        filesize: book.filesize,
        language: book.language,
        year: book.year,
        pages: book.pages,
        isbn: book.isbn,
        ipfs_cid: book.ipfs_cid,
    }
}

/// Two documents hold the same values in every field.
pub open spec fn same_content(a: BookDocument, b: BookDocument) -> bool {
    &&& a.id == b.id
    &&& a.title@ == b.title@
    &&& a.author@ == b.author@
    &&& a.publisher_exist == b.publisher_exist
    &&& a.publisher@ == b.publisher@
    &&& a.extension@ == b.extension@
    &&& a.filesize == b.filesize
    &&& a.language@ == b.language@
    &&& a.year == b.year
    &&& a.pages == b.pages
    &&& a.isbn@ == b.isbn@
    &&& a.ipfs_cid@ == b.ipfs_cid@
}

/// Building twice from the same input gives the same documents: two rows
/// with the same text decode, and map, to documents with the same content.
pub proof fn lemma_same_row_same_document(f: Seq<String>, g: Seq<String>, a: Book, b: Book)
    requires
        f.len() == g.len(),
        forall|i: int| 0 <= i < f.len() ==> (#[trigger] f[i])@ == g[i]@,
        book_of_fields(a, f),
        book_of_fields(b, g),
    ensures
        same_content(spec_document(a), spec_document(b)),
{
    assert(f.len() >= ROW_FIELDS);
    assert(f[0]@ == g[0]@ && f[5]@ == g[5]@ && f[7]@ == g[7]@ && f[8]@ == g[8]@);
    assert(f[1]@ == g[1]@ && f[2]@ == g[2]@ && f[3]@ == g[3]@ && f[4]@ == g[4]@);
    assert(f[6]@ == g[6]@ && f[9]@ == g[9]@ && f[10]@ == g[10]@);
}

} // verus!
