use vstd::prelude::*;

verus! {

/// The settings of one run, fixed before the walk starts.
#[derive(Clone, Debug)]
pub struct Opts {
    /// Descend into symbolic links to directories.
    pub follow_links: bool,
    /// Report the path of every file that was rewritten.
    pub verbose: bool,
    /// Write compact output instead of indented output.
    pub minify: bool,
    /// Remove a leading byte-order marker before parsing.
    pub bom: bool,
    /// Deepest level to descend to below the root; 0 means no limit.
    pub max_depth: usize,
    /// The directory to scan.
    pub path: String,
}

/// `.json`: the file-name suffix of the one recognized format.
pub open spec fn json_suffix() -> Seq<u8> {
    seq![0x2Eu8, 0x6Au8, 0x73u8, 0x6Fu8, 0x6Eu8]
}

/// The file name has the extension `json` (case-sensitive): it ends in
/// `.json` with at least one byte before the dot. A name such as `.json`
/// is a hidden file without extension.
pub open spec fn has_json_extension(name: Seq<u8>) -> bool {
    name.len() > json_suffix().len()
        && name.subrange(name.len() - json_suffix().len(), name.len() as int) == json_suffix()
}

/// An entry `depth` levels below the root lies within the limit `limit`.
pub open spec fn within_depth(depth: nat, limit: Option<usize>) -> bool {
    match limit {
        Some(m) => depth <= m,
        None => true,
    }
}

impl Opts {
    /// The depth limit of the walk, if there is one.
    pub open spec fn spec_depth_limit(&self) -> Option<usize> {
        if self.max_depth == 0 {
            None
        } else {
            Some(self.max_depth)
        }
    }

    /// An entry named `name`, `depth` levels below the root, is a file to rewrite.
    pub open spec fn spec_is_candidate(&self, name: Seq<u8>, depth: nat, is_file: bool) -> bool {
        is_file && within_depth(depth, self.spec_depth_limit()) && has_json_extension(name)
    }

    /// The depth limit to walk with: none when `max_depth` is 0.
    pub fn depth_limit(&self) -> (r: Option<usize>)
        ensures
            r == self.spec_depth_limit(),
    {
        if self.max_depth == 0 {
            None
        } else {
            Some(self.max_depth)
        }
    }

    /// Whether a walked entry, named by the bytes `name`, is to be rewritten: it is a file (or a link
    /// that resolves to one), lies within the depth limit, and its name has
    /// the extension `json`.
    pub fn is_candidate(&self, name: &[u8], depth: usize, is_file: bool) -> (r: bool)
        ensures
            r == self.spec_is_candidate(name@, depth as nat, is_file),
    {
        let within = match self.depth_limit() {
            Some(m) => depth <= m,
            None => true,
        };
        is_file && within && has_json_name(name)
    }
}

/// Whether the file name `name` (as bytes) has the extension `json`.
pub fn has_json_name(name: &[u8]) -> (r: bool)
    ensures
        r == has_json_extension(name@),
{
    let n = name.len();
    if n <= 5 {
        return false;
    }
    let r = name[n - 5] == 0x2E && name[n - 4] == 0x6A && name[n - 3] == 0x73 && name[n - 2]
        == 0x6F && name[n - 1] == 0x6E;
    proof {
        let tail = name@.subrange(n - 5, n as int);
        if r {
            assert(tail =~= json_suffix());
        } else if has_json_extension(name@) {
            assert(tail[0] == name@[n - 5]);
            assert(tail[1] == name@[n - 4]);
            assert(tail[2] == name@[n - 3]);
            assert(tail[3] == name@[n - 2]);
            assert(tail[4] == name@[n - 1]);
        }
    }
    r
}

} // verus!
