//! Sender-side session orchestration that needs no socket: partitioning the
//! indexed files into studies, and dealing studies out to workers.

use vstd::prelude::*;

use crate::types::DicomFile;

verus! {

/// The files of one study, grouped for transfer over one association.
#[derive(Debug)]
pub struct StudyGroup {
    pub study_uid: String,
    pub files: Vec<DicomFile>,
}

/// The same record, on the fields that identify a file.
pub open spec fn spec_same_file(a: DicomFile, b: DicomFile) -> bool {
    &&& a.path@ == b.path@
    &&& a.study_instance_uid@ == b.study_instance_uid@
    &&& a.series_instance_uid@ == b.series_instance_uid@
    &&& a.sop_instance_uid@ == b.sop_instance_uid@
    &&& a.sop_class_uid@ == b.sop_class_uid@
    &&& a.file_size == b.file_size
}

/// Whether some group holds a record identifying this file.
pub open spec fn spec_file_in_groups(groups: Seq<StudyGroup>, f: DicomFile) -> bool {
    exists|g: int, j: int|
        0 <= g < groups.len() && 0 <= j < groups[g].files@.len() && #[trigger] spec_same_file(
            groups[g].files@[j],
            f,
        )
}

/// Partitions the indexed files into studies: one group per distinct study
/// UID, in order of first appearance, each holding that study's files; every
/// input file lands in the group of its study.
pub fn group_by_study(files: &Vec<DicomFile>) -> (r: Vec<StudyGroup>)
    ensures
        forall|g: int, j: int|
            0 <= g < r@.len() && 0 <= j < r@[g].files@.len() ==> (#[trigger] r@[g].files@[j]
                .study_instance_uid)@ == r@[g].study_uid@,
        forall|g1: int, g2: int|
            0 <= g1 < g2 < r@.len() ==> (#[trigger] r@[g1].study_uid)@ != (
            #[trigger] r@[g2].study_uid)@,
        spec_group_sizes(r@) == files@.len(),
        forall|i: int|
            0 <= i < files@.len() ==> spec_file_in_groups(r@, #[trigger] files@[i]),
{
    let mut r: Vec<StudyGroup> = Vec::new();
    let n = files.len();
    let mut i: usize = 0;
    while i < n
        invariant
            n == files@.len(),
            i <= n,
            forall|g: int, j: int|
                0 <= g < r@.len() && 0 <= j < r@[g].files@.len() ==> (#[trigger] r@[g].files@[j]
                    .study_instance_uid)@ == r@[g].study_uid@,
            forall|g1: int, g2: int|
                0 <= g1 < g2 < r@.len() ==> (#[trigger] r@[g1].study_uid)@ != (
                #[trigger] r@[g2].study_uid)@,
            spec_group_sizes(r@) == i,
            forall|i2: int|
                0 <= i2 < i ==> spec_file_in_groups(r@, #[trigger] files@[i2]),
        decreases n - i,
    {
        let file = files[i].clone_file();
        let ghost filev = file;
        let m = r.len();
        let mut found: Option<usize> = None;
        let mut k: usize = 0;
        while k < m
            invariant
                m == r@.len(),
                k <= m,
                match found {
                    Option::Some(x) => x < m && r@[x as int].study_uid@ == files@[i as int]
                        .study_instance_uid@,
                    Option::None => forall|g: int|
                        0 <= g < k ==> (#[trigger] r@[g].study_uid)@ != files@[i as int]
                            .study_instance_uid@,
                },
                file.study_instance_uid == files@[i as int].study_instance_uid,
            decreases m - k,
        {
            match found {
                Some(_) => {
                    k = m;
                },
                None => {
                    if r[k].study_uid == file.study_instance_uid {
                        found = Some(k);
                    }
                    k = k + 1;
                },
            }
        }
        if let Some(x) = found {
            let ghost before = r@;
            let mut group = r.remove(x);
            let ghost old_len = group.files@.len() as int;
            group.files.push(file);
            r.insert(x, group);
            proof {
                assert(forall|g: int| 0 <= g < before.len() && g != x ==> r@[g] == before[g]);
                lemma_group_sizes_update(before, r@, x as int);
                assert(r@[x as int].files@[old_len] == filev);
                assert(spec_same_file(r@[x as int].files@[old_len], files@[i as int]));
                assert(spec_file_in_groups(r@, files@[i as int]));
                lemma_groups_grow_keep_files(before, r@, x as int);
            }
        } else {
            let mut group_files: Vec<DicomFile> = Vec::new();
            let study_uid = file.study_instance_uid.clone();
            group_files.push(file);
            let ghost before = r@;
            r.push(StudyGroup { study_uid, files: group_files });
            proof {
                lemma_group_sizes_push(before, r@[r@.len() - 1]);
                assert(r@[before.len() as int].files@[0] == filev);
                assert(spec_same_file(r@[before.len() as int].files@[0], files@[i as int]));
                assert(spec_file_in_groups(r@, files@[i as int]));
                assert(forall|g: int| 0 <= g < before.len() ==> r@[g] == before[g]);
                lemma_groups_grow_keep_files(before, r@, before.len() as int);
            }
        }
        i = i + 1;
    }
    r
}

/// Growing one group's file list, or appending a group, loses no file
/// already held.
proof fn lemma_groups_grow_keep_files(before: Seq<StudyGroup>, after: Seq<StudyGroup>, x: int)
    requires
        before.len() <= after.len(),
        forall|g: int| 0 <= g < before.len() && g != x ==> after[g] == before[g],
        0 <= x < after.len(),
        x < before.len() ==> {
            &&& before[x].files@.len() <= after[x].files@.len()
            &&& forall|j: int|
                0 <= j < before[x].files@.len() ==> after[x].files@[j] == before[x].files@[j]
        },
    ensures
        forall|f: DicomFile|
            spec_file_in_groups(before, f) ==> spec_file_in_groups(after, f),
{
    assert forall|f: DicomFile|
        spec_file_in_groups(before, f) implies spec_file_in_groups(after, f) by {
        let (g, j) = choose|g: int, j: int|
            0 <= g < before.len() && 0 <= j < before[g].files@.len() && #[trigger] spec_same_file(
                before[g].files@[j],
                f,
            );
        if g == x {
            assert(after[g].files@[j] == before[g].files@[j]);
        } else {
            assert(after[g] == before[g]);
        }
        assert(spec_same_file(after[g].files@[j], f));
    }
}

/// The total number of files held across a run of groups.
pub open spec fn spec_group_sizes(groups: Seq<StudyGroup>) -> int
    decreases groups.len(),
{
    if groups.len() == 0 {
        0
    } else {
        spec_group_sizes(groups.drop_last()) + groups.last().files@.len()
    }
}

/// Appending a group adds its size.
pub proof fn lemma_group_sizes_push(groups: Seq<StudyGroup>, g: StudyGroup)
    ensures
        spec_group_sizes(groups.push(g)) == spec_group_sizes(groups) + g.files@.len(),
{
    assert(groups.push(g).drop_last() =~= groups);
    assert(groups.push(g).last() == g);
}

/// Growing one group's file list by one grows the total by one.
pub proof fn lemma_group_sizes_update(before: Seq<StudyGroup>, after: Seq<StudyGroup>, k: int)
    requires
        0 <= k < before.len(),
        after.len() == before.len(),
        forall|g: int| 0 <= g < before.len() && g != k ==> after[g] == before[g],
        after[k].files@.len() == before[k].files@.len() + 1,
    ensures
        spec_group_sizes(after) == spec_group_sizes(before) + 1,
    decreases before.len(),
{
    if k == before.len() - 1 {
        assert(after.drop_last() =~= before.drop_last());
    } else {
        lemma_group_sizes_update(before.drop_last(), after.drop_last(), k);
        assert(after.last() == before.last());
    }
}

/// Deals the studies out to `workers` queues in contiguous stretches of
/// `ceil(len / workers)`, as the sender assigns them to its worker tasks.
pub fn partition_studies(mut groups: Vec<StudyGroup>, workers: usize) -> (r: Vec<Vec<StudyGroup>>)
    requires
        workers >= 1,
    ensures
        r@.len() <= workers,
        spec_partition_sizes(r@) == groups@.len(),
{
    let total = groups.len();
    let ghost original = groups@.len() as int;
    let chunk: usize = if total == 0 {
        1
    } else {
        (total - 1) / workers + 1
    };
    proof {
        if original > 0 {
            assert(chunk * workers >= original && chunk >= 1) by (nonlinear_arith)
                requires
                    workers >= 1,
                    original > 0,
                    original == total,
                    chunk == (total - 1) / (workers as int) + 1,
            ;
        }
    }
    let mut r: Vec<Vec<StudyGroup>> = Vec::new();
    let mut current: Vec<StudyGroup> = Vec::new();
    let mut moved: usize = 0;
    while groups.len() > 0
        invariant
            chunk >= 1,
            original <= usize::MAX,
            moved + groups@.len() == original,
            current@.len() < chunk,
            spec_partition_sizes(r@) + current@.len() == moved,
            spec_partition_sizes(r@) == r@.len() * chunk,
        decreases groups@.len(),
    {
        let g = groups.remove(0);
        current.push(g);
        moved = moved + 1;
        if current.len() == chunk {
            let full = current;
            current = Vec::new();
            let ghost before = r@;
            r.push(full);
            proof {
                lemma_partition_sizes_push(before, r@[r@.len() - 1]);
                assert(before.len() * chunk + chunk == (before.len() + 1) * chunk)
                    by (nonlinear_arith);
            }
        }
    }
    let ghost full_queues = r@.len() as int;
    let had_partial = current.len() > 0;
    if had_partial {
        let ghost before = r@;
        r.push(current);
        proof {
            lemma_partition_sizes_push(before, r@[r@.len() - 1]);
        }
    }
    proof {
        if original == 0 {
            assert(r@.len() == 0) by {
                assert(full_queues * chunk == 0 ==> full_queues == 0) by (nonlinear_arith)
                    requires
                        chunk >= 1,
                        full_queues >= 0,
                ;
            }
        } else {
            assert(full_queues * chunk <= original);
            assert(chunk * workers >= original);
            if had_partial {
                assert(full_queues * chunk < original);
                assert(full_queues < workers) by (nonlinear_arith)
                    requires
                        full_queues * chunk < original,
                        chunk * workers >= original,
                        chunk >= 1,
                        workers >= 1,
                        full_queues >= 0,
                ;
            } else {
                assert(full_queues <= workers) by (nonlinear_arith)
                    requires
                        full_queues * chunk <= original,
                        chunk * workers >= original,
                        chunk >= 1,
                        workers >= 1,
                        full_queues >= 0,
                ;
            }
        }
    }
    r
}

/// The total number of studies across the worker queues.
pub open spec fn spec_partition_sizes(parts: Seq<Vec<StudyGroup>>) -> int
    decreases parts.len(),
{
    if parts.len() == 0 {
        0
    } else {
        spec_partition_sizes(parts.drop_last()) + parts.last()@.len()
    }
}

/// Appending a queue adds its size.
pub proof fn lemma_partition_sizes_push(parts: Seq<Vec<StudyGroup>>, p: Vec<StudyGroup>)
    ensures
        spec_partition_sizes(parts.push(p)) == spec_partition_sizes(parts) + p@.len(),
{
    assert(parts.push(p).drop_last() =~= parts);
    assert(parts.push(p).last() == p);
}

} // verus!
