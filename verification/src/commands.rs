//! The static help text.

use vstd::prelude::*;

verus! {

/// The help message, as a character sequence.
pub open spec fn spec_help_text() -> Seq<char> {
    "\nAvailable commands:\n\nBasic File Operations:\n  open \"filename\" as var      - Open a file and assign it to a variable\n  read var                    - Read the file content from disk into memory\n  write var \"text\"            - Overwrite the file with the given text\n  append var \"text\"           - Append text to the end of the file\n  show var                    - Print the in-memory content of the file\n  close var                   - Close the file associated with the variable\n  truncate var                - Clear the file content (both in memory and on disk)\n\nAdvanced File Operations:\n  search var \"pattern\"        - Search for regex pattern in the file content\n  replace var \"pattern\" \"replacement\"\n                             - Replace all occurrences of the pattern with the replacement\n  linecount var               - Show the number of lines in the file\n  rename var \"newfilename\"    - Rename the file associated with var\n\nFile System Operations:\n  copy \"source\" \"destination\" - Copy a file on disk\n  move \"source\" \"destination\" - Move/rename a file on disk\n  remove \"filename\"           - Remove a file from disk\n\nDirectory and Environment:\n  listdir \"path\"              - List files in a directory\n  dumpenv                     - Show all variables, their files, and open/closed state\n\nMiscellaneous:\n  help                        - Show this help message\n  exit                        - Exit the interpreter\n\nEnd of Statement:\n  Statements can end with a newline or a semicolon.\n\nNote:\n  Patterns are regular expressions (using Rust's 'regex' crate syntax).\n  Filenames and text must be in double quotes.\n"@
}

/// Return a help string listing all commands and their usage.
pub fn help_text() -> (r: String)
    ensures
        r@ == spec_help_text(),
{
    "\nAvailable commands:\n\nBasic File Operations:\n  open \"filename\" as var      - Open a file and assign it to a variable\n  read var                    - Read the file content from disk into memory\n  write var \"text\"            - Overwrite the file with the given text\n  append var \"text\"           - Append text to the end of the file\n  show var                    - Print the in-memory content of the file\n  close var                   - Close the file associated with the variable\n  truncate var                - Clear the file content (both in memory and on disk)\n\nAdvanced File Operations:\n  search var \"pattern\"        - Search for regex pattern in the file content\n  replace var \"pattern\" \"replacement\"\n                             - Replace all occurrences of the pattern with the replacement\n  linecount var               - Show the number of lines in the file\n  rename var \"newfilename\"    - Rename the file associated with var\n\nFile System Operations:\n  copy \"source\" \"destination\" - Copy a file on disk\n  move \"source\" \"destination\" - Move/rename a file on disk\n  remove \"filename\"           - Remove a file from disk\n\nDirectory and Environment:\n  listdir \"path\"              - List files in a directory\n  dumpenv                     - Show all variables, their files, and open/closed state\n\nMiscellaneous:\n  help                        - Show this help message\n  exit                        - Exit the interpreter\n\nEnd of Statement:\n  Statements can end with a newline or a semicolon.\n\nNote:\n  Patterns are regular expressions (using Rust's 'regex' crate syntax).\n  Filenames and text must be in double quotes.\n".to_owned()
}

} // verus!
