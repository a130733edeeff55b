use dddw::copy::{copy, CopyError, CHUNK_SIZE};
use dddw::memio::{FaultySink, FaultySource, FlakySource, MemorySink, MemorySource};

fn pattern(len: usize) -> Vec<u8> {
    let mut data = Vec::new();
    for i in 0..len {
        data.push((i % 251) as u8);
    }
    data
}

#[test]
fn chunk_size_is_one_mebibyte() {
    assert_eq!(CHUNK_SIZE, 1024 * 1024);
}

#[test]
fn copy_moves_every_byte() {
    let data = pattern(10);
    let mut source = MemorySource::new(data.clone());
    let mut sink = MemorySink::new();
    assert_eq!(copy(&mut source, &mut sink, 4), Ok(10));
    assert_eq!(sink.bytes(), &data);
}

#[test]
fn copy_of_empty_source() {
    let mut source = MemorySource::new(Vec::new());
    let mut sink = MemorySink::new();
    assert_eq!(copy(&mut source, &mut sink, 4), Ok(0));
    assert_eq!(source.reads_completed(), 0);
    assert!(sink.bytes().is_empty());
}

#[test]
fn copy_twice_gives_identical_output() {
    let data = pattern(23);
    let mut first_source = MemorySource::new(data.clone());
    let mut first_sink = MemorySink::new();
    let mut second_source = MemorySource::new(data.clone());
    let mut second_sink = MemorySink::new();
    assert_eq!(copy(&mut first_source, &mut first_sink, 5), Ok(23));
    assert_eq!(copy(&mut second_source, &mut second_sink, 5), Ok(23));
    assert_eq!(first_sink.bytes(), second_sink.bytes());
    assert_eq!(first_sink.bytes().len(), data.len());
}

#[test]
fn copy_issues_ceiling_of_size_over_chunk_reads() {
    let data = pattern(10);
    let mut source = MemorySource::new(data);
    let mut sink = MemorySink::new();
    assert_eq!(copy(&mut source, &mut sink, 4), Ok(10));
    assert_eq!(source.reads_completed(), 3);
    assert_eq!(sink.bytes().len(), 10);
}

#[test]
fn copy_exact_multiple_of_chunk() {
    let data = pattern(8);
    let mut source = MemorySource::new(data.clone());
    let mut sink = MemorySink::new();
    assert_eq!(copy(&mut source, &mut sink, 4), Ok(8));
    assert_eq!(source.reads_completed(), 2);
    assert_eq!(sink.bytes(), &data);
}

#[test]
fn interrupted_reads_are_absorbed() {
    let data = pattern(17);
    let mut source = FlakySource::new(data.clone(), 3);
    let mut sink = MemorySink::new();
    assert_eq!(copy(&mut source, &mut sink, 6), Ok(17));
    assert_eq!(sink.bytes(), &data);
}

#[test]
fn fatal_read_aborts_after_completed_chunks() {
    let data = pattern(100);
    let mut source = FaultySource::new(data.clone(), 2, 7);
    let mut sink = MemorySink::new();
    assert_eq!(copy(&mut source, &mut sink, 10), Err(CopyError::Read(7)));
    assert_eq!(sink.bytes().len(), 20);
    assert_eq!(sink.bytes().as_slice(), &data[..20]);
}

#[test]
fn failed_write_aborts_without_the_chunk() {
    let data = pattern(30);
    let mut source = MemorySource::new(data.clone());
    let mut sink = FaultySink::new(1, 9);
    assert_eq!(copy(&mut source, &mut sink, 10), Err(CopyError::Write(9)));
    assert_eq!(sink.bytes().len(), 10);
    assert_eq!(sink.bytes().as_slice(), &data[..10]);
}
