//! Artifact packaging rules: which files an AnyKernel zip keeps, how the
//! produced artifacts and log files are named, where the kernel image is
//! expected, and how artifact bytes are cut into stream chunks.

use vstd::prelude::*;
use vstd::string::StringExecFns;

use crate::arch::{arch_dir_name, spec_arch_dir_name};
use crate::kernel_config::KernelConfig;
use crate::strutil::{spec_starts_with, starts_with};

verus! {

/// Whether a walked file belongs in an AnyKernel zip: it has content and
/// its base name is not hidden (dot-prefixed).
pub open spec fn spec_zip_include(name: Seq<char>, size: u64) -> bool {
    size != 0 && !spec_starts_with(name, (".")@)
}

pub fn zip_should_include(file_name: &str, size: u64) -> (r: bool)
    ensures
        r == spec_zip_include(file_name@, size),
{
    size != 0 && !starts_with(file_name, ".")
}

/// The names kept for packaging, in walk order.
pub open spec fn spec_zip_entries(files: Seq<(Seq<char>, u64)>) -> Seq<Seq<char>>
    decreases files.len(),
{
    if files.len() == 0 {
        Seq::empty()
    } else if spec_zip_include(files[0].0, files[0].1) {
        seq![files[0].0] + spec_zip_entries(files.skip(1))
    } else {
        spec_zip_entries(files.skip(1))
    }
}

/// Selects the files an AnyKernel zip keeps, from the walked
/// (relative name, size) pairs, in walk order.
pub fn zip_entries(files: &Vec<(String, u64)>) -> (r: Vec<String>)
    ensures
        r.deep_view() == spec_zip_entries(files.deep_view()),
{
    let ghost fd = files.deep_view();
    let n: usize = files.len();
    let mut r: Vec<String> = Vec::new();
    let mut i: usize = 0;
    proof {
        assert(fd.skip(0) =~= fd);
        assert(r.deep_view() =~= Seq::<Seq<char>>::empty());
        assert(Seq::<Seq<char>>::empty() + spec_zip_entries(fd) =~= spec_zip_entries(fd));
    }
    while i < n
        invariant
            0 <= i <= n,
            n == files@.len(),
            fd == files.deep_view(),
            fd.len() == n,
            spec_zip_entries(fd) == r.deep_view() + spec_zip_entries(fd.skip(i as int)),
        decreases n - i,
    {
        let ghost tail = fd.skip(i as int);
        proof {
            assert(tail[0] == fd[i as int]);
            assert(fd[i as int] == (files@[i as int].0@, files@[i as int].1));
            assert(tail.skip(1) =~= fd.skip(i + 1));
        }
        let keep: bool = zip_should_include(files[i].0.as_str(), files[i].1);
        if keep {
            let ghost pre = r.deep_view();
            r.push(files[i].0.clone());
            proof {
                assert(r.deep_view() =~= pre.push(files@[i as int].0@));
                assert(spec_zip_entries(tail) == seq![tail[0].0] + spec_zip_entries(tail.skip(1)));
                assert(pre.push(files@[i as int].0@) + spec_zip_entries(fd.skip(i + 1)) =~= pre + (
                seq![tail[0].0] + spec_zip_entries(tail.skip(1))));
            }
        } else {
            proof {
                assert(spec_zip_entries(tail) == spec_zip_entries(tail.skip(1)));
            }
        }
        i += 1;
    }
    proof {
        assert(fd.skip(n as int) =~= Seq::<(Seq<char>, u64)>::empty());
        assert(spec_zip_entries(fd.skip(n as int)) =~= Seq::<Seq<char>>::empty());
        assert(r.deep_view() + Seq::<Seq<char>>::empty() =~= r.deep_view());
    }
    r
}

/// Packaging law: a name is among the kept entries exactly when some
/// walked file bears it with content and without a leading dot. In
/// particular zero-length files and hidden files are omitted, and every
/// other file is kept.
pub proof fn lemma_zip_entries_exact(files: Seq<(Seq<char>, u64)>, name: Seq<char>)
    ensures
        spec_zip_entries(files).contains(name) <==> exists|j: int|
            0 <= j < files.len() && files[j].0 == name && spec_zip_include(name, files[j].1),
    decreases files.len(),
{
    if files.len() > 0 {
        lemma_zip_entries_exact(files.skip(1), name);
        if spec_zip_include(files[0].0, files[0].1) {
            let e = seq![files[0].0] + spec_zip_entries(files.skip(1));
            if e.contains(name) {
                let k = choose|k: int| 0 <= k < e.len() && e[k] == name;
                if k == 0 {
                    assert(files[0].0 == name && spec_zip_include(name, files[0].1));
                } else {
                    assert(spec_zip_entries(files.skip(1))[k - 1] == name);
                    assert(spec_zip_entries(files.skip(1)).contains(name));
                    let j = choose|j: int|
                        0 <= j < files.skip(1).len() && files.skip(1)[j].0 == name
                            && spec_zip_include(name, files.skip(1)[j].1);
                    assert(files[j + 1].0 == name && spec_zip_include(name, files[j + 1].1));
                }
            }
            if exists|j: int|
                0 <= j < files.len() && files[j].0 == name && spec_zip_include(
                    name,
                    files[j].1,
                ) {
                let j = choose|j: int|
                    0 <= j < files.len() && files[j].0 == name && spec_zip_include(
                        name,
                        files[j].1,
                    );
                if j == 0 {
                    assert(e[0] == name);
                } else {
                    assert(files.skip(1)[j - 1].0 == name && spec_zip_include(
                        name,
                        files.skip(1)[j - 1].1,
                    ));
                    let k = choose|k: int|
                        0 <= k < spec_zip_entries(files.skip(1)).len() && spec_zip_entries(
                            files.skip(1),
                        )[k] == name;
                    assert(e[k + 1] == name);
                }
            }
        } else {
            if spec_zip_entries(files).contains(name) {
                let j = choose|j: int|
                    0 <= j < files.skip(1).len() && files.skip(1)[j].0 == name
                        && spec_zip_include(name, files.skip(1)[j].1);
                assert(files[j + 1].0 == name && spec_zip_include(name, files[j + 1].1));
            }
            if exists|j: int|
                0 <= j < files.len() && files[j].0 == name && spec_zip_include(
                    name,
                    files[j].1,
                ) {
                let j = choose|j: int|
                    0 <= j < files.len() && files[j].0 == name && spec_zip_include(
                        name,
                        files[j].1,
                    );
                assert(j != 0);
                assert(files.skip(1)[j - 1].0 == name && spec_zip_include(
                    name,
                    files.skip(1)[j - 1].1,
                ));
            }
        }
    }
}

/// The name an AnyKernel zip is stored under, from the configuration
/// name, the device and a timestamp.
pub open spec fn spec_zip_file_name(
    name: Seq<char>,
    device: Seq<char>,
    ts: Seq<char>,
) -> Seq<char> {
    name + ("_")@ + device + ("-")@ + ts + (".zip")@
}

pub fn zip_file_name(name: &str, device: &str, ts: &str) -> (r: String)
    ensures
        r@ == spec_zip_file_name(name@, device@, ts@),
{
    let mut s = name.to_owned();
    s.append("_");
    s.append(device);
    s.append("-");
    s.append(ts);
    s.append(".zip");
    s
}

/// Relies on chrono::Local::now / format: the current local time written
/// as year-month-day_hour-minute-second. Nothing is assumed of the value.
#[verifier::external_body]
fn local_timestamp() -> String {
    chrono::Local::now().format("%Y-%m-%d_%H-%M-%S").to_string()
}

/// The zip name for a build packaged now: the configuration name and
/// device around the current timestamp.
pub fn fresh_zip_file_name(name: &str, device: &str) -> (r: String)
    ensures
        exists|ts: Seq<char>| r@ == #[trigger] spec_zip_file_name(name@, device@, ts),
{
    let ts = local_timestamp();
    let r = zip_file_name(name, device, ts.as_str());
    proof {
        assert(r@ == spec_zip_file_name(name@, device@, ts@));
    }
    r
}

/// Where the built kernel image is expected, relative to the source tree.
pub open spec fn spec_image_rel_path(c: KernelConfig) -> Seq<char> {
    ("out/arch/")@ + spec_arch_dir_name(c.arch) + ("/boot/")@ + c.image_type@
}

pub fn image_rel_path(c: &KernelConfig) -> (r: String)
    ensures
        r@ == spec_image_rel_path(*c),
{
    let mut s = "out/arch/".to_owned();
    s.append(arch_dir_name(&c.arch));
    s.append("/boot/");
    s.append(c.image_type.as_str());
    s
}

/// The log file name of the kernel prepare step.
pub fn prepare_log_name(config_name: &str) -> (r: String)
    ensures
        r@ == ("output-prepare-")@ + config_name@ + (".log")@,
{
    let mut s = "output-prepare-".to_owned();
    s.append(config_name);
    s.append(".log");
    s
}

/// The log file name of the kernel build step.
pub fn build_log_name(config_name: &str) -> (r: String)
    ensures
        r@ == ("output-build-")@ + config_name@ + (".log")@,
{
    let mut s = "output-build-".to_owned();
    s.append(config_name);
    s.append(".log");
    s
}

/// Cuts artifact bytes into chunks for streaming: concatenated back
/// together the chunks are exactly the bytes, every chunk is at most
/// `chunk_size` long, and only the last one may be shorter.
pub fn split_into_chunks(data: &Vec<u8>, chunk_size: usize) -> (r: Vec<Vec<u8>>)
    requires
        chunk_size >= 1,
    ensures
        r.deep_view().flatten() == data@,
        forall|i: int| 0 <= i < r.deep_view().len() ==> 1 <= #[trigger] r.deep_view()[i].len()
            <= chunk_size,
        forall|i: int|
            0 <= i < r.deep_view().len() - 1 ==> #[trigger] r.deep_view()[i].len() == chunk_size,
{
    broadcast use Seq::lemma_flatten_push;

    let n: usize = data.len();
    let mut r: Vec<Vec<u8>> = Vec::new();
    let mut i: usize = 0;
    proof {
        assert(r.deep_view() =~= Seq::<Seq<u8>>::empty());
        assert(Seq::<Seq<u8>>::empty().flatten() =~= Seq::<u8>::empty());
        assert(data@.take(0) =~= Seq::<u8>::empty());
    }
    while i < n
        invariant
            0 <= i <= n,
            n == data@.len(),
            chunk_size >= 1,
            r.deep_view().flatten() == data@.take(i as int),
            forall|k: int| 0 <= k < r.deep_view().len() ==> 1 <= #[trigger] r.deep_view()[k].len()
                <= chunk_size,
            forall|k: int|
                0 <= k < r.deep_view().len() - 1 ==> #[trigger] r.deep_view()[k].len()
                    == chunk_size,
            i < n && r.deep_view().len() > 0 ==> r.deep_view().last().len() == chunk_size,
        decreases n - i,
    {
        let end: usize = if n - i < chunk_size {
            n
        } else {
            i + chunk_size
        };
        let mut chunk: Vec<u8> = Vec::new();
        let mut j: usize = i;
        while j < end
            invariant
                i <= j <= end,
                end <= n,
                n == data@.len(),
                chunk@ == data@.subrange(i as int, j as int),
            decreases end - j,
        {
            let ghost prec = chunk@;
            chunk.push(data[j]);
            proof {
                assert(data@.subrange(i as int, j + 1) =~= prec.push(data@[j as int]));
            }
            j += 1;
        }
        let ghost pre = r.deep_view();
        r.push(chunk);
        proof {
            let x = data@.subrange(i as int, end as int);
            assert(r.deep_view() =~~= pre.push(x));
            pre.lemma_flatten_push(x);
            assert(pre.push(x).flatten() == pre.flatten() + x);
            assert(data@.take(end as int) =~= data@.take(i as int) + x);
        }
        proof {
            if end < n {
                assert(end - i == chunk_size);
            }
            assert(r.deep_view().last().len() == end - i);
            assert forall|k: int| 0 <= k < r.deep_view().len() - 1 implies #[trigger] r.deep_view()[k].len() == chunk_size by {
                assert(r.deep_view()[k] == pre[k]);
            }
        }
        i = end;
    }
    proof {
        assert(data@.take(n as int) =~= data@);
    }
    r
}

} // verus!
