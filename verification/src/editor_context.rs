use vstd::prelude::*;
use vstd::string::*;

verus! {

/// A snapshot of the code that is open in the editor.
#[derive(Debug, PartialEq, Eq)]
pub struct EditorContext {
    pub file_path: String,
    pub language: String,
    pub code: String,
    pub start_line: i64,
    pub end_line: Option<i64>,
}

/// The mathematical content of an [`EditorContext`].
pub struct EditorContextView {
    pub file_path: Seq<char>,
    pub language: Seq<char>,
    pub code: Seq<char>,
    pub start_line: i64,
    pub end_line: Option<i64>,
}

impl View for EditorContext {
    type V = EditorContextView;

    open spec fn view(&self) -> EditorContextView {
        EditorContextView {
            file_path: self.file_path@,
            language: self.language@,
            code: self.code@,
            start_line: self.start_line,
            end_line: self.end_line,
        }
    }
}

impl DeepView for EditorContext {
    type V = EditorContextView;

    open spec fn deep_view(&self) -> EditorContextView {
        self.view()
    }
}

impl Clone for EditorContext {
    fn clone(&self) -> (copy: Self)
        ensures
            copy == *self,
    {
        EditorContext {
            file_path: self.file_path.clone(),
            language: self.language.clone(),
            code: self.code.clone(),
            start_line: self.start_line,
            end_line: self.end_line,
        }
    }
}

impl EditorContextView {
    /// The snapshot as a reader sees it: the file's path, then the code in a fenced block
    /// that is labelled with the language.
    pub open spec fn format(self) -> Seq<char> {
        "File: "@ + self.file_path + "\n\n```"@ + self.language + "\n"@ + self.code + "\n```"@
    }
}

impl EditorContext {
    /// The snapshot as a reader sees it.
    pub fn format(&self) -> (text: String)
        ensures
            text@ == self@.format(),
    {
        let mut text = String::from_str("File: ");
        text.append(self.file_path.as_str());
        text.append("\n\n```");
        text.append(self.language.as_str());
        text.append("\n");
        text.append(self.code.as_str());
        text.append("\n```");
        text
    }
}

} // verus!
