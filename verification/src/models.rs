//! The entities of the relational store and how a row becomes one.
//!
//! Every entity has one decoding function, used by every query that returns
//! it. Columns are looked up by name, so a query may list them in any order.
//! A stored value is accepted for a field only where it has the type of the
//! field: text for a string, an integer for a number or a flag, and `NULL`
//! only where the field is optional.

use vstd::prelude::*;
use crate::rows::{DecodeError, SqlRow};

verus! {

/// A document known to the library, with what ranking reads of it.
#[derive(Debug, Clone)]
pub struct Document {
    pub id: String,
    pub source: String,
    pub file_path: Option<String>,
    pub keep_local_id: Option<String>,
    pub title: Option<String>,
    pub author: Option<String>,
    pub url: Option<String>,
    pub word_count: i64,
    pub last_opened_at: i64,
    pub created_at: i64,
}

impl Document {
    /// The entity that `row` stands for: every field from the column of its
    /// name; the first column, in the order of the fields, that is missing or
    /// of the wrong type decides the error.
    pub open spec fn of_row(row: SqlRow) -> Result<Document, DecodeError> {
        if row.text_named("id"@) is Err {
            Err(row.text_named("id"@)->Err_0)
        } else if row.text_named("source"@) is Err {
            Err(row.text_named("source"@)->Err_0)
        } else if row.opt_text_named("file_path"@) is Err {
            Err(row.opt_text_named("file_path"@)->Err_0)
        } else if row.opt_text_named("keep_local_id"@) is Err {
            Err(row.opt_text_named("keep_local_id"@)->Err_0)
        } else if row.opt_text_named("title"@) is Err {
            Err(row.opt_text_named("title"@)->Err_0)
        } else if row.opt_text_named("author"@) is Err {
            Err(row.opt_text_named("author"@)->Err_0)
        } else if row.opt_text_named("url"@) is Err {
            Err(row.opt_text_named("url"@)->Err_0)
        } else if row.int_named("word_count"@) is Err {
            Err(row.int_named("word_count"@)->Err_0)
        } else if row.int_named("last_opened_at"@) is Err {
            Err(row.int_named("last_opened_at"@)->Err_0)
        } else if row.int_named("created_at"@) is Err {
            Err(row.int_named("created_at"@)->Err_0)
        } else {
            Ok(
                Document {
                    id: row.text_named("id"@)->Ok_0,
                    source: row.text_named("source"@)->Ok_0,
                    file_path: row.opt_text_named("file_path"@)->Ok_0,
                    keep_local_id: row.opt_text_named("keep_local_id"@)->Ok_0,
                    title: row.opt_text_named("title"@)->Ok_0,
                    author: row.opt_text_named("author"@)->Ok_0,
                    url: row.opt_text_named("url"@)->Ok_0,
                    word_count: row.int_named("word_count"@)->Ok_0,
                    last_opened_at: row.int_named("last_opened_at"@)->Ok_0,
                    created_at: row.int_named("created_at"@)->Ok_0,
                },
            )
        }
    }

    /// Decodes one row.
    pub fn from_row(row: &SqlRow) -> (r: Result<Document, DecodeError>)
        ensures
            r == Document::of_row(*row),
    {
        let id = row.text_of("id")?;
        let source = row.text_of("source")?;
        let file_path = row.opt_text_of("file_path")?;
        let keep_local_id = row.opt_text_of("keep_local_id")?;
        let title = row.opt_text_of("title")?;
        let author = row.opt_text_of("author")?;
        let url = row.opt_text_of("url")?;
        let word_count = row.int_of("word_count")?;
        let last_opened_at = row.int_of("last_opened_at")?;
        let created_at = row.int_of("created_at")?;
        Ok(
            Document {
                id,
                source,
                file_path,
                keep_local_id,
                title,
                author,
                url,
                word_count,
                last_opened_at,
                created_at,
            },
        )
    }
}

/// A highlighted span of a document.
#[derive(Debug, Clone)]
pub struct Highlight {
    pub id: String,
    pub document_id: String,
    pub color: String,
    pub text_content: String,
    pub from_pos: i64,
    pub to_pos: i64,
    pub prefix_context: Option<String>,
    pub suffix_context: Option<String>,
    pub created_at: i64,
    pub updated_at: i64,
}

impl Highlight {
    /// The entity that `row` stands for: every field from the column of its
    /// name; the first column, in the order of the fields, that is missing or
    /// of the wrong type decides the error.
    pub open spec fn of_row(row: SqlRow) -> Result<Highlight, DecodeError> {
        if row.text_named("id"@) is Err {
            Err(row.text_named("id"@)->Err_0)
        } else if row.text_named("document_id"@) is Err {
            Err(row.text_named("document_id"@)->Err_0)
        } else if row.text_named("color"@) is Err {
            Err(row.text_named("color"@)->Err_0)
        } else if row.text_named("text_content"@) is Err {
            Err(row.text_named("text_content"@)->Err_0)
        } else if row.int_named("from_pos"@) is Err {
            Err(row.int_named("from_pos"@)->Err_0)
        } else if row.int_named("to_pos"@) is Err {
            Err(row.int_named("to_pos"@)->Err_0)
        } else if row.opt_text_named("prefix_context"@) is Err {
            Err(row.opt_text_named("prefix_context"@)->Err_0)
        } else if row.opt_text_named("suffix_context"@) is Err {
            Err(row.opt_text_named("suffix_context"@)->Err_0)
        } else if row.int_named("created_at"@) is Err {
            Err(row.int_named("created_at"@)->Err_0)
        } else if row.int_named("updated_at"@) is Err {
            Err(row.int_named("updated_at"@)->Err_0)
        } else {
            Ok(
                Highlight {
                    id: row.text_named("id"@)->Ok_0,
                    document_id: row.text_named("document_id"@)->Ok_0,
                    color: row.text_named("color"@)->Ok_0,
                    text_content: row.text_named("text_content"@)->Ok_0,
                    from_pos: row.int_named("from_pos"@)->Ok_0,
                    to_pos: row.int_named("to_pos"@)->Ok_0,
                    prefix_context: row.opt_text_named("prefix_context"@)->Ok_0,
                    suffix_context: row.opt_text_named("suffix_context"@)->Ok_0,
                    created_at: row.int_named("created_at"@)->Ok_0,
                    updated_at: row.int_named("updated_at"@)->Ok_0,
                },
            )
        }
    }

    /// Decodes one row.
    pub fn from_row(row: &SqlRow) -> (r: Result<Highlight, DecodeError>)
        ensures
            r == Highlight::of_row(*row),
    {
        let id = row.text_of("id")?;
        let document_id = row.text_of("document_id")?;
        let color = row.text_of("color")?;
        let text_content = row.text_of("text_content")?;
        let from_pos = row.int_of("from_pos")?;
        let to_pos = row.int_of("to_pos")?;
        let prefix_context = row.opt_text_of("prefix_context")?;
        let suffix_context = row.opt_text_of("suffix_context")?;
        let created_at = row.int_of("created_at")?;
        let updated_at = row.int_of("updated_at")?;
        Ok(
            Highlight {
                id,
                document_id,
                color,
                text_content,
                from_pos,
                to_pos,
                prefix_context,
                suffix_context,
                created_at,
                updated_at,
            },
        )
    }
}

/// A note in the margin, attached to a highlight.
#[derive(Debug, Clone)]
pub struct MarginNote {
    pub id: String,
    pub highlight_id: String,
    pub content: String,
    pub created_at: i64,
    pub updated_at: i64,
}

impl MarginNote {
    /// The entity that `row` stands for: every field from the column of its
    /// name; the first column, in the order of the fields, that is missing or
    /// of the wrong type decides the error.
    pub open spec fn of_row(row: SqlRow) -> Result<MarginNote, DecodeError> {
        if row.text_named("id"@) is Err {
            Err(row.text_named("id"@)->Err_0)
        } else if row.text_named("highlight_id"@) is Err {
            Err(row.text_named("highlight_id"@)->Err_0)
        } else if row.text_named("content"@) is Err {
            Err(row.text_named("content"@)->Err_0)
        } else if row.int_named("created_at"@) is Err {
            Err(row.int_named("created_at"@)->Err_0)
        } else if row.int_named("updated_at"@) is Err {
            Err(row.int_named("updated_at"@)->Err_0)
        } else {
            Ok(
                MarginNote {
                    id: row.text_named("id"@)->Ok_0,
                    highlight_id: row.text_named("highlight_id"@)->Ok_0,
                    content: row.text_named("content"@)->Ok_0,
                    created_at: row.int_named("created_at"@)->Ok_0,
                    updated_at: row.int_named("updated_at"@)->Ok_0,
                },
            )
        }
    }

    /// Decodes one row.
    pub fn from_row(row: &SqlRow) -> (r: Result<MarginNote, DecodeError>)
        ensures
            r == MarginNote::of_row(*row),
    {
        let id = row.text_of("id")?;
        let highlight_id = row.text_of("highlight_id")?;
        let content = row.text_of("content")?;
        let created_at = row.int_of("created_at")?;
        let updated_at = row.int_of("updated_at")?;
        Ok(
            MarginNote {
                id,
                highlight_id,
                content,
                created_at,
                updated_at,
            },
        )
    }
}

/// A thread of comments on a span of a document.
#[derive(Debug, Clone)]
pub struct CommentThread {
    pub id: String,
    pub document_id: String,
    pub text_content: String,
    pub from_pos: i64,
    pub to_pos: i64,
    pub prefix_context: Option<String>,
    pub suffix_context: Option<String>,
    pub resolved: bool,
    pub created_at: i64,
    pub updated_at: i64,
}

impl CommentThread {
    /// The entity that `row` stands for: every field from the column of its
    /// name; the first column, in the order of the fields, that is missing or
    /// of the wrong type decides the error. A flag is
    /// set where its integer is not zero.
    pub open spec fn of_row(row: SqlRow) -> Result<CommentThread, DecodeError> {
        if row.text_named("id"@) is Err {
            Err(row.text_named("id"@)->Err_0)
        } else if row.text_named("document_id"@) is Err {
            Err(row.text_named("document_id"@)->Err_0)
        } else if row.text_named("text_content"@) is Err {
            Err(row.text_named("text_content"@)->Err_0)
        } else if row.int_named("from_pos"@) is Err {
            Err(row.int_named("from_pos"@)->Err_0)
        } else if row.int_named("to_pos"@) is Err {
            Err(row.int_named("to_pos"@)->Err_0)
        } else if row.opt_text_named("prefix_context"@) is Err {
            Err(row.opt_text_named("prefix_context"@)->Err_0)
        } else if row.opt_text_named("suffix_context"@) is Err {
            Err(row.opt_text_named("suffix_context"@)->Err_0)
        } else if row.int_named("resolved"@) is Err {
            Err(row.int_named("resolved"@)->Err_0)
        } else if row.int_named("created_at"@) is Err {
            Err(row.int_named("created_at"@)->Err_0)
        } else if row.int_named("updated_at"@) is Err {
            Err(row.int_named("updated_at"@)->Err_0)
        } else {
            Ok(
                CommentThread {
                    id: row.text_named("id"@)->Ok_0,
                    document_id: row.text_named("document_id"@)->Ok_0,
                    text_content: row.text_named("text_content"@)->Ok_0,
                    from_pos: row.int_named("from_pos"@)->Ok_0,
                    to_pos: row.int_named("to_pos"@)->Ok_0,
                    prefix_context: row.opt_text_named("prefix_context"@)->Ok_0,
                    suffix_context: row.opt_text_named("suffix_context"@)->Ok_0,
                    resolved: row.int_named("resolved"@)->Ok_0 != 0,
                    created_at: row.int_named("created_at"@)->Ok_0,
                    updated_at: row.int_named("updated_at"@)->Ok_0,
                },
            )
        }
    }

    /// Decodes one row.
    pub fn from_row(row: &SqlRow) -> (r: Result<CommentThread, DecodeError>)
        ensures
            r == CommentThread::of_row(*row),
    {
        let id = row.text_of("id")?;
        let document_id = row.text_of("document_id")?;
        let text_content = row.text_of("text_content")?;
        let from_pos = row.int_of("from_pos")?;
        let to_pos = row.int_of("to_pos")?;
        let prefix_context = row.opt_text_of("prefix_context")?;
        let suffix_context = row.opt_text_of("suffix_context")?;
        let resolved = row.int_of("resolved")?;
        let created_at = row.int_of("created_at")?;
        let updated_at = row.int_of("updated_at")?;
        Ok(
            CommentThread {
                id,
                document_id,
                text_content,
                from_pos,
                to_pos,
                prefix_context,
                suffix_context,
                resolved: resolved != 0,
                created_at,
                updated_at,
            },
        )
    }
}

/// One comment of a thread.
#[derive(Debug, Clone)]
pub struct Comment {
    pub id: String,
    pub thread_id: String,
    pub content: String,
    pub created_at: i64,
}

impl Comment {
    /// The entity that `row` stands for: every field from the column of its
    /// name; the first column, in the order of the fields, that is missing or
    /// of the wrong type decides the error.
    pub open spec fn of_row(row: SqlRow) -> Result<Comment, DecodeError> {
        if row.text_named("id"@) is Err {
            Err(row.text_named("id"@)->Err_0)
        } else if row.text_named("thread_id"@) is Err {
            Err(row.text_named("thread_id"@)->Err_0)
        } else if row.text_named("content"@) is Err {
            Err(row.text_named("content"@)->Err_0)
        } else if row.int_named("created_at"@) is Err {
            Err(row.int_named("created_at"@)->Err_0)
        } else {
            Ok(
                Comment {
                    id: row.text_named("id"@)->Ok_0,
                    thread_id: row.text_named("thread_id"@)->Ok_0,
                    content: row.text_named("content"@)->Ok_0,
                    created_at: row.int_named("created_at"@)->Ok_0,
                },
            )
        }
    }

    /// Decodes one row.
    pub fn from_row(row: &SqlRow) -> (r: Result<Comment, DecodeError>)
        ensures
            r == Comment::of_row(*row),
    {
        let id = row.text_of("id")?;
        let thread_id = row.text_of("thread_id")?;
        let content = row.text_of("content")?;
        let created_at = row.int_of("created_at")?;
        Ok(
            Comment {
                id,
                thread_id,
                content,
                created_at,
            },
        )
    }
}

/// A correction as the editor hands it over.
#[derive(Debug, Clone)]
pub struct CorrectionInput {
    pub highlight_id: String,
    pub original_text: String,
    pub prefix_context: Option<String>,
    pub suffix_context: Option<String>,
    pub extended_context: Option<String>,
    pub notes: Vec<String>,
    pub highlight_color: String,
    pub writing_type: Option<String>,
}

} // verus!
