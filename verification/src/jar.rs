use vstd::prelude::*;

use crate::class::{spec_field_lookup, spec_method_lookup, Class};
use crate::class_file::spec_parse_class_file;
use crate::errors::ArchiveError;
use crate::manifest::{parse_manifest, spec_manifest_lookup};
use crate::reader::opt_view;
use crate::strmap::StringMap;
use crate::text::str_eq;
use vstd::string::{StrSliceExecFns, StringExecFns};

verus! {

// The archive loader. An archive is a zip container; every entry whose name
// ends with `.class` is a candidate class module, and the manifest file
// `META-INF/MANIFEST.MF` names the entry class. The zip crate does the
// decompression, behind trusted declarations; everything from the extracted
// `(name, bytes)` pairs on is verified.

#[verifier::external_type_specification]
#[verifier::external_body]
#[verifier::reject_recursive_types(R)]
pub struct ExZipArchive<R>(zip::read::ZipArchive<R>);

#[verifier::external_type_specification]
#[verifier::external_body]
#[verifier::reject_recursive_types(T)]
pub struct ExCursor<T>(std::io::Cursor<T>);

/// The `(name, contents)` entries that the given bytes decompress to, in
/// central-directory order, when they form a well-formed archive.
pub uninterp spec fn archive_entries(b: Seq<u8>) -> Option<Seq<(Seq<char>, Seq<u8>)>>;

/// The `(name, contents)` entries of an opened archive, in index order.
pub uninterp spec fn archive_contents(
    a: zip::read::ZipArchive<std::io::Cursor<Vec<u8>>>,
) -> Seq<(Seq<char>, Seq<u8>)>;

/// Relies on `zip::ZipArchive::new`, which reads the central directory of
/// the archive from the in-memory bytes: it succeeds exactly on well-formed
/// archive bytes, and both the success and the entries are functions of the
/// bytes alone.
#[verifier::external_body]
fn zip_open(bytes: Vec<u8>) -> (r: Result<
    zip::read::ZipArchive<std::io::Cursor<Vec<u8>>>,
    ArchiveError,
>)
    ensures
        r is Ok <==> archive_entries(bytes@) is Some,
        r is Ok ==> archive_contents(r.unwrap()) == archive_entries(bytes@).unwrap(),
{
    match zip::read::ZipArchive::new(std::io::Cursor::new(bytes)) {
        Ok(a) => Ok(a),
        Err(_) => Err(ArchiveError::NotAnArchive),
    }
}

/// Relies on `zip::ZipArchive::len`: the number of entries of the archive.
#[verifier::external_body]
fn zip_len(a: &zip::read::ZipArchive<std::io::Cursor<Vec<u8>>>) -> (r: usize)
    ensures
        r == archive_contents(*a).len(),
{
    a.len()
}

/// Relies on `zip::ZipArchive::by_index`, `zip::read::ZipFile::name` and
/// `std::io::Read::read_to_end`, which together yield the name and the
/// decompressed contents of entry `i`. The three stand in one wrapper
/// because the entry handle borrows the archive and cannot cross this
/// boundary. Reading moves the underlying cursor but leaves the entries as
/// they are; a failed read yields `None` and is skipped by the caller.
#[verifier::external_body]
fn zip_entry(a: &mut zip::read::ZipArchive<std::io::Cursor<Vec<u8>>>, i: usize) -> (r: Option<
    (String, Vec<u8>),
>)
    ensures
        archive_contents(*final(a)) == archive_contents(*old(a)),
        r is Some ==> i < archive_contents(*old(a)).len() && (
        r.unwrap().0@,
        r.unwrap().1@,
        ) == archive_contents(*old(a))[i as int],
{
    match a.by_index(i) {
        Ok(mut f) => {
            let entry_name = f.name().to_string();
            let mut buf: Vec<u8> = Vec::new();
            match std::io::Read::read_to_end(&mut f, &mut buf) {
                Ok(_) => Some((entry_name, buf)),
                Err(_) => None,
            }
        },
        Err(_) => None,
    }
}

/// The character/byte view of an owned entry list.
pub open spec fn spec_entries_view(es: Seq<(String, Vec<u8>)>) -> Seq<(Seq<char>, Seq<u8>)> {
    Seq::new(es.len(), |i: int| (es[i].0@, es[i].1@))
}

/// `a` is a subsequence of `b`: its items occur in `b` in order.
pub open spec fn spec_is_subseq<T>(a: Seq<T>, b: Seq<T>) -> bool
    decreases b.len(),
{
    if a.len() == 0 {
        true
    } else if b.len() == 0 {
        false
    } else if a.last() == b.last() && spec_is_subseq(a.drop_last(), b.drop_last()) {
        true
    } else {
        spec_is_subseq(a, b.drop_last())
    }
}

pub proof fn lemma_subseq_extend<T>(a: Seq<T>, b: Seq<T>, x: T)
    requires
        spec_is_subseq(a, b),
    ensures
        spec_is_subseq(a, b.push(x)),
{
    if a.len() == 0 {
    } else {
        assert(b.push(x).drop_last() =~= b);
    }
}

pub proof fn lemma_subseq_snoc<T>(a: Seq<T>, b: Seq<T>, x: T)
    requires
        spec_is_subseq(a, b),
    ensures
        spec_is_subseq(a.push(x), b.push(x)),
{
    assert(a.push(x).last() == b.push(x).last());
    assert(a.push(x).drop_last() =~= a);
    assert(b.push(x).drop_last() =~= b);
}

/// An entry name that designates a class module: it ends with `.class`.
pub open spec fn spec_is_class_name(name: Seq<char>) -> bool {
    name.len() >= 6 && name.subrange(name.len() - 6, name.len() as int) == ".class"@
}

fn is_class_entry(name: &String) -> (r: bool)
    ensures
        r == spec_is_class_name(name@),
{
    let n = name.as_str().unicode_len();
    if n >= 6 {
        let tail = name.as_str().substring_char(n - 6, n);
        str_eq(tail, ".class")
    } else {
        false
    }
}

/// `c` is exactly the class module that loading `b` yields: the decoded
/// class file, the derived member maps, and a clear `initialized` flag.
pub open spec fn spec_class_matches(c: Class, b: Seq<u8>) -> bool {
    &&& spec_parse_class_file(b) is Ok
    &&& c.class_file.deep_view() == spec_parse_class_file(b).unwrap().0
    &&& c.fields.wf()
    &&& c.methods.wf()
    &&& !c.initialized
    &&& forall|name: Seq<char>|
        opt_view(#[trigger] c.fields.spec_get(name)) == spec_field_lookup(
            spec_parse_class_file(b).unwrap().0.constant_pool,
            spec_parse_class_file(b).unwrap().0.field_table,
            name,
        )
    &&& forall|name: Seq<char>|
        opt_view(#[trigger] c.methods.spec_get(name)) == spec_method_lookup(
            spec_parse_class_file(b).unwrap().0.constant_pool,
            spec_parse_class_file(b).unwrap().0.method_table,
            name,
        )
}

/// The entry that provides the class of path `name`: the last class entry
/// of that name whose bytes load.
pub open spec fn spec_class_source(es: Seq<(Seq<char>, Seq<u8>)>, name: Seq<char>) -> Option<int>
    decreases es.len(),
{
    if es.len() == 0 {
        None
    } else if es.last().0 == name && spec_is_class_name(es.last().0) && spec_parse_class_file(
        es.last().1,
    ) is Ok {
        Some(es.len() - 1)
    } else {
        spec_class_source(es.drop_last(), name)
    }
}

/// The contents of the first manifest entry, if one exists.
pub open spec fn spec_manifest_entry(es: Seq<(Seq<char>, Seq<u8>)>) -> Option<Seq<u8>>
    decreases es.len(),
{
    if es.len() == 0 {
        None
    } else if es[0].0 == "META-INF/MANIFEST.MF"@ {
        Some(es[0].1)
    } else {
        spec_manifest_entry(es.drop_first())
    }
}

/// A loaded archive: its path, its manifest key/value map, and its class
/// modules keyed by entry path.
pub struct Jar {
    pub name: String,
    pub manifest: StringMap<String>,
    pub classes: StringMap<Class>,
}

/// `jar` is exactly what loading the entry list `es` under path `name`
/// yields.
pub open spec fn spec_jar_from_entries(jar: Jar, name: Seq<char>, es: Seq<(Seq<char>, Seq<u8>)>) -> bool {
    &&& jar.name@ == name
    &&& jar.manifest.wf()
    &&& jar.classes.wf()
    &&& spec_manifest_entry(es) is Some
    &&& vstd::utf8::valid_utf8(spec_manifest_entry(es).unwrap())
    &&& forall|key: Seq<char>|
        opt_view(#[trigger] jar.manifest.spec_get(key)) == spec_manifest_lookup(
            spec_manifest_entry(es).unwrap(),
            key,
        )
    &&& forall|n: Seq<char>|
        match spec_class_source(es, n) {
            Some(idx) => (#[trigger] jar.classes.spec_get(n)) is Some && spec_class_matches(
                jar.classes.spec_get(n).unwrap(),
                es[idx].1,
            ),
            None => jar.classes.spec_get(n) is None,
        }
}

impl Jar {
    /// Well-formed archive: both maps are well-formed, and every loaded
    /// class module carries well-formed member maps.
    pub open spec fn wf(self) -> bool {
        &&& self.manifest.wf()
        &&& self.classes.wf()
        &&& forall|n: Seq<char>|
            match #[trigger] self.classes.spec_get(n) {
                Some(c) => c.fields.wf() && c.methods.wf(),
                None => true,
            }
    }

    /// Load an archive from its extracted `(entry name, contents)` pairs:
    /// every class entry that decodes is kept, keyed by its path, a later
    /// entry of the same path overriding an earlier one; the first manifest
    /// entry is parsed. Succeeds exactly when a manifest entry exists and
    /// holds UTF-8 text; per-class failures are skipped silently.
    pub fn from_entries(name: String, entries: Vec<(String, Vec<u8>)>) -> (r: Result<
        Jar,
        ArchiveError,
    >)
        ensures
            r is Ok <==> (spec_manifest_entry(spec_entries_view(entries@)) is Some
                && vstd::utf8::valid_utf8(
                spec_manifest_entry(spec_entries_view(entries@)).unwrap(),
            )),
            r is Err ==> r == Err::<Jar, _>(ArchiveError::ManifestMissing),
            r is Ok ==> spec_jar_from_entries(r.unwrap(), name@, spec_entries_view(entries@)),
            r is Ok ==> r.unwrap().wf(),
    {
        let ghost ev = spec_entries_view(entries@);
        let mut classes: StringMap<Class> = StringMap::new();
        let n = entries.len();
        let mut j: usize = 0;
        proof {
            assert(ev.take(0) =~= Seq::<(Seq<char>, Seq<u8>)>::empty());
        }
        while j < n
            invariant
                j <= n,
                n == entries@.len(),
                ev == spec_entries_view(entries@),
                ev.len() == n,
                classes.wf(),
                forall|nm: Seq<char>|
                    match spec_class_source(ev.take(j as int), nm) {
                        Some(idx) => (#[trigger] classes.spec_get(nm)) is Some
                            && spec_class_matches(classes.spec_get(nm).unwrap(), ev[idx].1),
                        None => classes.spec_get(nm) is None,
                    },
            decreases n - j,
        {
            proof {
                assert(ev[j as int] == (entries@[j as int].0@, entries@[j as int].1@));
                assert(ev.take(j as int + 1).last() == ev[j as int]);
                assert(ev.take(j as int + 1).drop_last() =~= ev.take(j as int));
            }
            let e = &entries[j];
            if is_class_entry(&e.0) {
                match Class::new(&e.1) {
                    Some(c) => {
                        classes.insert(e.0.clone(), c);
                    },
                    None => {},
                }
            }
            j = j + 1;
        }
        proof {
            assert(ev.take(n as int) =~= ev);
        }
        let mut k: usize = 0;
        while k < n
            invariant
                k <= n,
                n == entries@.len(),
                ev == spec_entries_view(entries@),
                ev.len() == n,
                spec_manifest_entry(ev) == spec_manifest_entry(ev.skip(k as int)),
                classes.wf(),
                forall|nm: Seq<char>|
                    match spec_class_source(ev, nm) {
                        Some(idx) => (#[trigger] classes.spec_get(nm)) is Some
                            && spec_class_matches(classes.spec_get(nm).unwrap(), ev[idx].1),
                        None => classes.spec_get(nm) is None,
                    },
            decreases n - k,
        {
            proof {
                assert(ev.skip(k as int)[0] == ev[k as int]);
                assert(ev.skip(k as int).drop_first() =~= ev.skip(k as int + 1));
            }
            if str_eq(entries[k].0.as_str(), "META-INF/MANIFEST.MF") {
                proof {
                    assert(ev[k as int] == (entries@[k as int].0@, entries@[k as int].1@));
                    assert(spec_manifest_entry(ev.skip(k as int)) == Some(ev[k as int].1));
                }
                let manifest = match parse_manifest(&entries[k].1) {
                    Ok(m) => m,
                    Err(_) => {
                        return Err(ArchiveError::ManifestMissing);
                    },
                };
                return Ok(Jar { name, manifest, classes });
            }
            k = k + 1;
        }
        proof {
            assert(ev.skip(n as int) =~= Seq::<(Seq<char>, Seq<u8>)>::empty());
        }
        Err(ArchiveError::ManifestMissing)
    }

    /// Open an archive from its raw bytes: extract every entry the zip
    /// crate can read, then load them. Fails with `NotAnArchive` exactly
    /// when the bytes are not a well-formed archive; entries whose
    /// extraction fails are skipped, so the loaded entries form a
    /// subsequence of the archive's entries.
    pub fn new(name: String, data: Vec<u8>) -> (r: Result<Jar, ArchiveError>)
        ensures
            r == Err::<Jar, _>(ArchiveError::NotAnArchive) <==> archive_entries(data@) is None,
            r is Err ==> (r == Err::<Jar, _>(ArchiveError::NotAnArchive) || r == Err::<Jar, _>(
                ArchiveError::ManifestMissing,
            )),
            r is Ok ==> exists|es: Seq<(Seq<char>, Seq<u8>)>|
                spec_is_subseq(es, archive_entries(data@).unwrap()) && spec_jar_from_entries(
                    r.unwrap(),
                    name@,
                    es,
                ),
            r is Ok ==> r.unwrap().wf(),
    {
        let ghost datav = data@;
        let mut archive = match zip_open(data) {
            Ok(a) => a,
            Err(_) => {
                return Err(ArchiveError::NotAnArchive);
            },
        };
        let ghost contents = archive_contents(archive);
        let n = zip_len(&archive);
        let mut entries: Vec<(String, Vec<u8>)> = Vec::new();
        let mut i: usize = 0;
        proof {
            assert(spec_entries_view(entries@) =~= Seq::<(Seq<char>, Seq<u8>)>::empty());
            assert(contents.take(0) =~= Seq::<(Seq<char>, Seq<u8>)>::empty());
        }
        while i < n
            invariant
                i <= n,
                archive_contents(archive) == contents,
                n == contents.len(),
                spec_is_subseq(spec_entries_view(entries@), contents.take(i as int)),
            decreases n - i,
        {
            let ghost old_ev = spec_entries_view(entries@);
            match zip_entry(&mut archive, i) {
                Some(en) => {
                    proof {
                        assert(contents.take(i as int + 1) =~= contents.take(i as int).push(
                            contents[i as int],
                        ));
                        lemma_subseq_snoc(old_ev, contents.take(i as int), contents[i as int]);
                    }
                    let ghost env = (en.0@, en.1@);
                    entries.push(en);
                    proof {
                        assert(spec_entries_view(entries@) =~= old_ev.push(env));
                    }
                },
                None => {
                    proof {
                        assert(contents.take(i as int + 1) =~= contents.take(i as int).push(
                            contents[i as int],
                        ));
                        lemma_subseq_extend(old_ev, contents.take(i as int), contents[i as int]);
                    }
                },
            }
            i = i + 1;
        }
        proof {
            assert(contents.take(n as int) =~= contents);
        }
        Jar::from_entries(name, entries)
    }

    /// The entry-class path that the manifest names: its `Main-Class` value
    /// with `.class` appended.
    pub open spec fn spec_main_class_name(self) -> Option<Seq<char>> {
        match self.manifest.spec_get("Main-Class"@) {
            Some(v) => Some(v@ + ".class"@),
            None => None,
        }
    }

    pub fn main_class_name(&self) -> (r: Option<String>)
        requires
            self.manifest.wf(),
        ensures
            match r {
                Some(s) => self.spec_main_class_name() == Some(s@),
                None => self.spec_main_class_name() is None,
            },
    {
        match self.manifest.get("Main-Class") {
            Some(v) => {
                let mut s = v.clone();
                s.append(".class");
                Some(s)
            },
            None => None,
        }
    }

    /// The entry class: the class module keyed by the manifest's
    /// `Main-Class` value with `.class` appended, if both exist.
    pub fn get_main_class(&self) -> (r: Option<&Class>)
        requires
            self.wf(),
        ensures
            match r {
                Some(c) => self.spec_main_class_name() is Some && self.classes.spec_get(
                    self.spec_main_class_name().unwrap(),
                ) == Some(*c),
                None => self.spec_main_class_name() is None || self.classes.spec_get(
                    self.spec_main_class_name().unwrap(),
                ) is None,
            },
    {
        match self.main_class_name() {
            Some(n) => self.classes.get(n.as_str()),
            None => None,
        }
    }
}


/// Parsing a class twice from identical bytes produces equal in-memory
/// trees: any two class modules loaded from the same bytes agree on the
/// decoded class file, on every member lookup, and on the initialized flag.
pub proof fn lemma_load_deterministic(b: Seq<u8>, c1: Class, c2: Class)
    requires
        spec_class_matches(c1, b),
        spec_class_matches(c2, b),
    ensures
        c1.class_file.deep_view() == c2.class_file.deep_view(),
        forall|n: Seq<char>|
            opt_view(#[trigger] c1.fields.spec_get(n)) == opt_view(c2.fields.spec_get(n)),
        forall|n: Seq<char>|
            opt_view(#[trigger] c1.methods.spec_get(n)) == opt_view(c2.methods.spec_get(n)),
        c1.initialized == c2.initialized,
{
}

} // verus!
