use vstd::prelude::*;

use crate::error::{is_unsupported, ArchiveError, Operation};
use crate::format::{format_of, implicit_destination, implicit_destination_of, Format};
use crate::job::{opt_str, strs, Job, JobView};

verus! {

/// What a run was asked to do: at most one archive per mode, the trailing paths,
/// and optional replacements for the delegated tools.
#[derive(Debug, PartialEq, Eq)]
pub struct Args {
    /// Archive to extract.
    pub extract: Option<String>,
    /// Archive to create.
    pub compress: Option<String>,
    /// Archive whose contents to list.
    pub list: Option<String>,
    /// Sources to compress, or, first of them, the directory to extract to.
    pub files: Vec<String>,
    /// The tar executable to use instead of `tar`.
    pub tar: Option<String>,
    /// The unzip executable to use instead of `unzip`.
    pub unzip: Option<String>,
    /// The zip executable to use instead of `zip`.
    pub zip: Option<String>,
}

/// The request as plain character sequences.
pub struct ArgsView {
    pub extract: Option<Seq<char>>,
    pub compress: Option<Seq<char>>,
    pub list: Option<Seq<char>>,
    pub files: Seq<Seq<char>>,
    pub tar: Option<Seq<char>>,
    pub unzip: Option<Seq<char>>,
    pub zip: Option<Seq<char>>,
}

impl View for Args {
    type V = ArgsView;

    open spec fn view(&self) -> ArgsView {
        ArgsView {
            extract: opt_str(self.extract),
            compress: opt_str(self.compress),
            list: opt_str(self.list),
            files: strs(self.files@),
            tar: opt_str(self.tar),
            unzip: opt_str(self.unzip),
            zip: opt_str(self.zip),
        }
    }
}

/// A chosen executable, or the conventional one.
pub open spec fn tool_or(chosen: Option<Seq<char>>, conventional: Seq<char>) -> Seq<char> {
    match chosen {
        Some(t) => t,
        None => conventional,
    }
}

/// `r` is the job `expected` describes, or, where there is none, the error that the
/// archive name `archive` is unsupported.
pub open spec fn answers(
    r: Result<Job, ArchiveError>,
    archive: Seq<char>,
    expected: Option<JobView>,
) -> bool {
    match expected {
        Some(j) => r matches Ok(job) && job@ == j,
        None => r matches Err(e) && is_unsupported(e, archive),
    }
}

impl ArgsView {
    pub open spec fn tar_program(self) -> Seq<char> {
        tool_or(self.tar, "tar"@)
    }

    pub open spec fn unzip_program(self) -> Seq<char> {
        tool_or(self.unzip, "unzip"@)
    }

    pub open spec fn zip_program(self) -> Seq<char> {
        tool_or(self.zip, "zip"@)
    }

    /// Where an archive is extracted: the first trailing path, else the implicit directory.
    pub open spec fn extract_destination(self, archive: Seq<char>, f: Format) -> Seq<char> {
        if self.files.len() > 0 {
            self.files[0]
        } else {
            implicit_destination(archive, f)
        }
    }

    /// `tar -xf <archive> --directory <dest>`, or `unzip <archive> -d <dest>`, after
    /// creating the implicit directory when no destination was given.
    pub open spec fn extract_job(self, archive: Seq<char>, f: Format) -> JobView {
        let dest = self.extract_destination(archive, f);
        JobView {
            operation: Operation::Extract,
            make_dir: if self.files.len() > 0 {
                None
            } else {
                Some(dest)
            },
            program: match f {
                Format::Zip => self.unzip_program(),
                _ => self.tar_program(),
            },
            args: match f {
                Format::Zip => seq![archive, "-d"@, dest],
                _ => seq!["-xf"@, archive, "--directory"@, dest],
            },
        }
    }

    /// `tar -cf`, `tar -czf` or `zip --recurse-paths`, then the archive, then the sources.
    pub open spec fn compress_job(self, archive: Seq<char>, f: Format) -> JobView {
        JobView {
            operation: Operation::Compress,
            make_dir: None,
            program: match f {
                Format::Zip => self.zip_program(),
                _ => self.tar_program(),
            },
            args: seq![
                match f {
                    Format::Tar => "-cf"@,
                    Format::TarGz => "-czf"@,
                    Format::Zip => "--recurse-paths"@,
                },
                archive,
            ] + self.files,
        }
    }

    /// `tar -tvf <archive>`, or `unzip -l <archive>`.
    pub open spec fn list_job(self, archive: Seq<char>, f: Format) -> JobView {
        JobView {
            operation: Operation::List,
            make_dir: None,
            program: match f {
                Format::Zip => self.unzip_program(),
                _ => self.tar_program(),
            },
            args: match f {
                Format::Zip => seq!["-l"@, archive],
                _ => seq!["-tvf"@, archive],
            },
        }
    }

    /// The job for an operation on an archive, or none when its name has no supported format.
    pub open spec fn job_for(self, op: Operation, archive: Seq<char>) -> Option<JobView> {
        match format_of(archive) {
            None => None,
            Some(f) => Some(
                match op {
                    Operation::Extract => self.extract_job(archive, f),
                    Operation::Compress => self.compress_job(archive, f),
                    Operation::List => self.list_job(archive, f),
                },
            ),
        }
    }

    /// How many of the three modes were selected.
    pub open spec fn mode_count(self) -> nat {
        (if self.extract is Some { 1nat } else { 0nat }) + (if self.compress is Some {
            1nat
        } else {
            0nat
        }) + (if self.list is Some { 1nat } else { 0nat })
    }
}

/// Appends copies of `items` to `v`.
fn push_all(v: &mut Vec<String>, items: &Vec<String>)
    ensures
        strs(final(v)@) == strs(old(v)@) + strs(items@),
{
    let ghost start = strs(v@);
    let mut i: usize = 0;
    while i < items.len()
        invariant
            i <= items@.len(),
            strs(v@) == start + strs(items@.subrange(0, i as int)),
        decreases items@.len() - i,
    {
        let ghost before = strs(v@);
        v.push(items[i].clone());
        assert(strs(v@) =~= before.push(items@[i as int]@));
        assert(strs(items@.subrange(0, i + 1)) =~= strs(items@.subrange(0, i as int)).push(
            items@[i as int]@,
        ));
        i = i + 1;
    }
    assert(items@.subrange(0, items@.len() as int) =~= items@);
}

/// A chosen executable, or the conventional one.
fn chosen_or(chosen: &Option<String>, conventional: &str) -> (r: String)
    ensures
        r@ == tool_or(opt_str(*chosen), conventional@),
{
    match chosen {
        Some(t) => t.clone(),
        None => conventional.to_owned(),
    }
}

impl Args {
    /// The tar executable to run.
    pub fn tar_command(&self) -> (r: String)
        ensures
            r@ == self@.tar_program(),
    {
        chosen_or(&self.tar, "tar")
    }

    /// The unzip executable to run.
    pub fn unzip_command(&self) -> (r: String)
        ensures
            r@ == self@.unzip_program(),
    {
        chosen_or(&self.unzip, "unzip")
    }

    /// The zip executable to run.
    pub fn zip_command(&self) -> (r: String)
        ensures
            r@ == self@.zip_program(),
    {
        chosen_or(&self.zip, "zip")
    }

    /// Plans the extraction of `archive`. The format is resolved first, before any
    /// directory is planned; without a trailing path the implicit directory is created
    /// before the tool runs, with one it is handed to the tool as it is.
    pub fn extract(&self, archive: &str) -> (r: Result<Job, ArchiveError>)
        ensures
            answers(r, archive@, self@.job_for(Operation::Extract, archive@)),
    {
        let format = match Format::try_from(archive) {
            Ok(f) => f,
            Err(e) => return Err(e),
        };
        let (dir, make_dir) = if self.files.len() > 0 {
            (self.files[0].clone(), None)
        } else {
            let dir = implicit_destination_of(archive, format);
            (dir.clone(), Some(dir))
        };
        let mut args: Vec<String> = Vec::new();
        let program = match format {
            Format::Tar | Format::TarGz => {
                args.push("-xf".to_owned());
                args.push(archive.to_owned());
                args.push("--directory".to_owned());
                args.push(dir);
                self.tar_command()
            },
            Format::Zip => {
                args.push(archive.to_owned());
                args.push("-d".to_owned());
                args.push(dir);
                self.unzip_command()
            },
        };
        let job = Job { operation: Operation::Extract, make_dir, program, args };
        assert(job@.args =~= self@.extract_job(archive@, format).args);
        Ok(job)
    }

    /// Plans the creation of `archive` from the trailing paths. The format comes from
    /// the archive's name alone; recursion into directories is always on for zip.
    pub fn compress(&self, archive: &str) -> (r: Result<Job, ArchiveError>)
        ensures
            answers(r, archive@, self@.job_for(Operation::Compress, archive@)),
    {
        let format = match Format::try_from(archive) {
            Ok(f) => f,
            Err(e) => return Err(e),
        };
        let mut args: Vec<String> = Vec::new();
        let program = match format {
            Format::Tar => {
                args.push("-cf".to_owned());
                self.tar_command()
            },
            Format::TarGz => {
                args.push("-czf".to_owned());
                self.tar_command()
            },
            Format::Zip => {
                args.push("--recurse-paths".to_owned());
                self.zip_command()
            },
        };
        args.push(archive.to_owned());
        push_all(&mut args, &self.files);
        let job = Job { operation: Operation::Compress, make_dir: None, program, args };
        assert(job@.args =~= self@.compress_job(archive@, format).args);
        Ok(job)
    }

    /// Plans the listing of `archive`'s contents.
    pub fn list(&self, archive: &str) -> (r: Result<Job, ArchiveError>)
        ensures
            answers(r, archive@, self@.job_for(Operation::List, archive@)),
    {
        let format = match Format::try_from(archive) {
            Ok(f) => f,
            Err(e) => return Err(e),
        };
        let mut args: Vec<String> = Vec::new();
        let program = match format {
            Format::Tar | Format::TarGz => {
                args.push("-tvf".to_owned());
                self.tar_command()
            },
            Format::Zip => {
                args.push("-l".to_owned());
                self.unzip_command()
            },
        };
        args.push(archive.to_owned());
        let job = Job { operation: Operation::List, make_dir: None, program, args };
        assert(job@.args =~= self@.list_job(archive@, format).args);
        Ok(job)
    }

    /// Plans the run that the selected mode asks for. Exactly one mode must be selected:
    /// with none or several, nothing is planned.
    pub fn plan(&self) -> (r: Result<Job, ArchiveError>)
        ensures
            self@.mode_count() == 0 ==> r == Err::<Job, ArchiveError>(ArchiveError::MissingMode),
            self@.mode_count() > 1 ==> r == Err::<Job, ArchiveError>(
                ArchiveError::ConflictingModes,
            ),
            self@.mode_count() == 1 ==> {
                &&& self@.extract matches Some(a) ==> answers(
                    r,
                    a,
                    self@.job_for(Operation::Extract, a),
                )
                &&& self@.compress matches Some(a) ==> answers(
                    r,
                    a,
                    self@.job_for(Operation::Compress, a),
                )
                &&& self@.list matches Some(a) ==> answers(r, a, self@.job_for(Operation::List, a))
            },
    {
        let mut count: usize = 0;
        if self.extract.is_some() {
            count = count + 1;
        }
        if self.compress.is_some() {
            count = count + 1;
        }
        if self.list.is_some() {
            count = count + 1;
        }
        if count == 0 {
            return Err(ArchiveError::MissingMode);
        }
        if count > 1 {
            return Err(ArchiveError::ConflictingModes);
        }
        match (&self.extract, &self.compress, &self.list) {
            (Some(a), _, _) => self.extract(a.as_str()),
            (_, Some(a), _) => self.compress(a.as_str()),
            (_, _, Some(a)) => self.list(a.as_str()),
            (None, None, None) => Err(ArchiveError::MissingMode),
        }
    }
}

/// The format and tool of a compression are decided by the archive's name alone: any
/// other sources give the same program and the same leading arguments, and the sources
/// only ever follow them.
pub proof fn lemma_compress_ignores_sources(a: ArgsView, sources: Seq<Seq<char>>, archive: Seq<char>)
    ensures
        ({
            let b = ArgsView { files: sources, ..a };
            match (a.job_for(Operation::Compress, archive), b.job_for(Operation::Compress, archive)) {
                (Some(x), Some(y)) => {
                    &&& x.program == y.program
                    &&& x.args.take(2) == y.args.take(2)
                    &&& y.args.skip(2) == sources
                },
                (None, None) => true,
                _ => false,
            }
        }),
{
    let b = ArgsView { files: sources, ..a };
    if let Some(f) = format_of(archive) {
        let x = a.compress_job(archive, f);
        let y = b.compress_job(archive, f);
        assert(x.args.take(2) =~= y.args.take(2));
        assert(y.args.skip(2) =~= sources);
    }
}

/// Without a trailing path, extraction plans to create the implicit directory (the
/// archive's name with its format suffix replaced by `.extracted`) and extracts into it.
pub proof fn lemma_extract_implicit_destination(a: ArgsView, archive: Seq<char>)
    requires
        a.files.len() == 0,
        format_of(archive) is Some,
    ensures
        ({
            let dest = implicit_destination(archive, format_of(archive)->0);
            let j = a.job_for(Operation::Extract, archive)->0;
            &&& j.make_dir == Some(dest)
            &&& j.args.last() == dest
        }),
{
}

/// With a trailing path, extraction creates no directory and hands the first such path
/// to the tool as the destination.
pub proof fn lemma_extract_given_destination(a: ArgsView, archive: Seq<char>)
    requires
        a.files.len() > 0,
        format_of(archive) is Some,
    ensures
        ({
            let j = a.job_for(Operation::Extract, archive)->0;
            &&& j.make_dir is None
            &&& j.args.last() == a.files[0]
        }),
{
}

} // verus!
