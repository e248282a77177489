//! Discovery of interface-definition schema files and construction of the
//! request handed to the external code generator.
//!
//! Walking the filesystem and invoking the generator are I/O and belong to
//! the binary around this library; it hands `discover` the paths it found
//! under the root directory and receives back either the schema set or the
//! error to report. An empty schema set is always a misconfiguration, never
//! a valid empty build, so `discover` fails rather than return one.

use vstd::prelude::*;

verus! {

/// The schema file extension, as characters: `.proto`.
pub open spec fn has_schema_ext(p: Seq<char>) -> bool {
    &&& p.len() >= 6
    &&& p[p.len() - 6] == '.'
    &&& p[p.len() - 5] == 'p'
    &&& p[p.len() - 4] == 'r'
    &&& p[p.len() - 3] == 'o'
    &&& p[p.len() - 2] == 't'
    &&& p[p.len() - 1] == 'o'
}

/// The views of a sequence of path strings.
pub open spec fn path_views(ps: Seq<String>) -> Seq<Seq<char>> {
    ps.map_values(|p: String| p@)
}

/// Whether `name` ends in the schema file extension.
pub fn has_schema_extension(name: &String) -> (r: bool)
    ensures
        r == has_schema_ext(name@),
{
    let s = name.as_str();
    let n = s.unicode_len();
    if n < 6 {
        return false;
    }
    s.get_char(n - 6) == '.' && s.get_char(n - 5) == 'p' && s.get_char(n - 4) == 'r'
        && s.get_char(n - 3) == 'o' && s.get_char(n - 2) == 't' && s.get_char(n - 1) == 'o'
}

/// An ordered, non-empty set of schema file paths, kept in the order in
/// which the caller's directory walk found them.
pub struct SchemaSet {
    pub files: Vec<String>,
}

impl SchemaSet {
    /// A schema set is never empty and holds only schema-extension paths.
    pub open spec fn well_formed(self) -> bool {
        &&& self.files@.len() > 0
        &&& forall|i: int| 0 <= i < self.files@.len() ==> has_schema_ext(#[trigger] self.files@[i]@)
    }

    pub fn len(&self) -> (n: usize)
        ensures
            n == self.files@.len(),
    {
        self.files.len()
    }
}

/// Discovery found no schema file under the root directory.
pub struct DiscoverError {
    pub root: String,
}

impl DiscoverError {
    /// The human-readable report for this error.
    pub open spec fn spec_message(self) -> Seq<char> {
        "no schema files found in "@ + self.root@
    }

    pub fn message(&self) -> (r: String)
        ensures
            r@ == self.spec_message(),
    {
        String::from_str("no schema files found in ").concat(self.root.as_str())
    }
}

/// `filter` over a sequence grown by one element at the end.
proof fn lemma_filter_push<A>(s: Seq<A>, x: A, pred: spec_fn(A) -> bool)
    ensures
        s.push(x).filter(pred) == if pred(x) {
            s.filter(pred).push(x)
        } else {
            s.filter(pred)
        },
{
    reveal(Seq::filter);
    assert(s.push(x).drop_last() =~= s);
}

/// Select, out of the paths found under `root`, those that end in the schema
/// extension, in the order given. Zero matches is a hard failure carrying
/// `root` for the error report.
#[verifier::loop_isolation(false)]
pub fn discover(root: &String, entries: &Vec<String>) -> (r: Result<SchemaSet, DiscoverError>)
    ensures
        r matches Ok(s) ==> {
            &&& path_views(s.files@) == path_views(entries@).filter(|p: Seq<char>| has_schema_ext(p))
            &&& s.well_formed()
        },
        (r is Ok) == (exists|i: int| 0 <= i < entries@.len() && has_schema_ext(#[trigger] entries@[i]@)),
        r matches Err(e) ==> e.root@ == root@,
{
    let ghost pred = |p: Seq<char>| has_schema_ext(p);
    let mut files: Vec<String> = Vec::new();
    let n = entries.len();
    let mut i: usize = 0;
    while i < n
        invariant
            i <= n,
            n == entries@.len(),
            path_views(files@) == path_views(entries@.subrange(0, i as int)).filter(pred),
            forall|j: int| 0 <= j < files@.len() ==> has_schema_ext(#[trigger] files@[j]@),
            files@.len() > 0 <==> exists|j: int| 0 <= j < i && has_schema_ext(#[trigger] entries@[j]@),
        decreases n - i,
    {
        let ghost prefix = path_views(entries@.subrange(0, i as int));
        let ghost prev_files = files@;
        if has_schema_extension(&entries[i]) {
            files.push(entries[i].clone());
        }
        proof {
            lemma_filter_push(prefix, entries@[i as int]@, pred);
            assert(entries@.subrange(0, i + 1).drop_last() =~= entries@.subrange(0, i as int));
            assert(path_views(entries@.subrange(0, i + 1)) =~= prefix.push(entries@[i as int]@));
            if has_schema_ext(entries@[i as int]@) {
                assert(path_views(files@) =~= path_views(prev_files).push(entries@[i as int]@));
            } else {
                assert(files@ == prev_files);
            }
            assert(path_views(files@) =~= path_views(entries@.subrange(0, i + 1)).filter(pred));
        }
        i = i + 1;
    }
    proof {
        assert(entries@.subrange(0, n as int) =~= entries@);
    }
    if files.len() == 0 {
        Err(DiscoverError { root: root.clone() })
    } else {
        Ok(SchemaSet { files })
    }
}

/// Fixed generation options: which artifacts the code generator is asked
/// to produce.
#[derive(Clone, Copy, PartialEq, Eq, Structural)]
pub struct GenerationOptions {
    /// Generate server-side stubs.
    pub server: bool,
    /// Generate client-side stubs.
    pub client: bool,
    /// Generate transport bindings.
    pub transport: bool,
}

/// Everything the external code generator is handed for one run: the schema
/// set, the include directories, the output directory, the generation
/// options, and the name of the combined output file.
pub struct CompilationRequest {
    pub schemas: SchemaSet,
    pub include_dirs: Vec<String>,
    pub out_dir: String,
    pub options: GenerationOptions,
    pub combined_file: String,
}

/// What any request built from the given schema paths, include paths and
/// output directory must look like: those inputs carried through unchanged,
/// the generation options fixed to server stubs plus transport bindings and
/// no client stubs, and the combined output file named `_includes`.
pub open spec fn spec_built_request(
    r: CompilationRequest,
    schemas: Seq<Seq<char>>,
    includes: Seq<Seq<char>>,
    out_dir: Seq<char>,
) -> bool {
    &&& path_views(r.schemas.files@) == schemas
    &&& path_views(r.include_dirs@) == includes
    &&& r.out_dir@ == out_dir
    &&& r.options == (GenerationOptions { server: true, client: false, transport: true })
    &&& r.combined_file@ == "_includes"@
}

/// Bundle a discovered schema set into the request for the code generator.
/// The generation options do not depend on which files were discovered.
pub fn build_request(schemas: SchemaSet, include_dirs: Vec<String>, out_dir: String) -> (r:
    CompilationRequest)
    ensures
        r.schemas == schemas,
        r.include_dirs == include_dirs,
        r.out_dir == out_dir,
        spec_built_request(r, path_views(schemas.files@), path_views(include_dirs@), out_dir@),
{
    CompilationRequest {
        schemas,
        include_dirs,
        out_dir,
        options: GenerationOptions { server: true, client: false, transport: true },
        combined_file: String::from_str("_includes"),
    }
}

/// Two requests built from the same schema paths, include paths and output
/// directory agree on everything the code generator reads: generation is fed
/// identical input both times, whichever run produced the request.
pub proof fn lemma_request_construction_deterministic(
    r1: CompilationRequest,
    r2: CompilationRequest,
    schemas: Seq<Seq<char>>,
    includes: Seq<Seq<char>>,
    out_dir: Seq<char>,
)
    requires
        spec_built_request(r1, schemas, includes, out_dir),
        spec_built_request(r2, schemas, includes, out_dir),
    ensures
        path_views(r1.schemas.files@) == path_views(r2.schemas.files@),
        path_views(r1.include_dirs@) == path_views(r2.include_dirs@),
        r1.out_dir@ == r2.out_dir@,
        r1.options == r2.options,
        r1.combined_file@ == r2.combined_file@,
{
}

/// The report for a failed run of the external code generator, wrapping the
/// generator's own words with the failing stage.
pub fn compiler_failure_message(detail: &String) -> (r: String)
    ensures
        r@ == "Protobuf compilation error: "@ + detail@,
{
    String::from_str("Protobuf compilation error: ").concat(detail.as_str())
}

} // verus!
