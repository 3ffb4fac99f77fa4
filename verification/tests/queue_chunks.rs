//! The queue's drain-and-reinject semantics and the byte-bounded chunker.
use woodchuck::chunk::chunk_logs;
use woodchuck::extension::logs_api;
use woodchuck::handler::collect_failed;
use woodchuck::models::Log;
use woodchuck::models::LogData;
use woodchuck::models::StructuredLog;
use woodchuck::queue::new_log_queue;

/// A small structured log whose serialized form is easy to size.
fn tiny_log(tag: &str) -> Log {
    Log::Unformatted(StructuredLog {
        timestamp: None,
        guid: None,
        level: None,
        data: LogData::Raw(tag.to_string()),
    })
}

#[test]
fn drain_then_extend_leaves_exactly_the_batch() {
    let mut queue = new_log_queue();
    queue.append(vec![tiny_log("a"), tiny_log("b"), tiny_log("c")]);

    let drained = queue.drain_all();
    assert_eq!(drained.len(), 3);
    assert_eq!(queue.len(), 0);

    queue.extend(vec![tiny_log("x")]);
    queue.push(tiny_log("y"));
    let now = queue.drain_all();
    assert_eq!(now.len(), 2);
    assert_eq!(now[0].to_string(), tiny_log("x").to_string());
    assert_eq!(now[1].to_string(), tiny_log("y").to_string());
}

#[test]
fn chunks_concatenate_to_the_input() {
    // {"data":"a"} is 12 bytes; a 25-byte cap packs two per chunk.
    let logs = vec![tiny_log("a"), tiny_log("b"), tiny_log("c"), tiny_log("d"), tiny_log("e")];
    let texts: Vec<String> = logs.iter().map(|l| l.to_string()).collect();
    let chunks = chunk_logs(logs, 25);
    assert_eq!(chunks.len(), 3);
    assert_eq!(chunks[0].len(), 2);
    assert_eq!(chunks[1].len(), 2);
    assert_eq!(chunks[2].len(), 1);
    let flat: Vec<String> = chunks.iter().flatten().map(|l| l.to_string()).collect();
    assert_eq!(flat, texts);
}

#[test]
fn chunk_sums_stay_under_the_cap() {
    let logs = vec![tiny_log("aa"), tiny_log("b"), tiny_log("c"), tiny_log("ddd")];
    let cap = 26;
    let chunks = chunk_logs(logs, cap);
    for chunk in &chunks {
        let sum: usize = chunk.iter().map(|l| l.bytes_size()).sum();
        assert!(sum <= cap || chunk.len() == 1);
    }
}

#[test]
fn oversized_log_travels_alone() {
    let big = tiny_log("0123456789012345678901234567890123456789");
    let logs = vec![tiny_log("a"), big, tiny_log("b")];
    let chunks = chunk_logs(logs, 25);
    assert_eq!(chunks.len(), 3);
    assert_eq!(chunks[0].len(), 1);
    assert_eq!(chunks[1].len(), 1);
    assert!(chunks[1][0].bytes_size() > 25);
    assert_eq!(chunks[2].len(), 1);
}

#[test]
fn all_chunks_accepted_is_a_success() {
    let chunks = chunk_logs(vec![tiny_log("a"), tiny_log("b")], 12);
    assert_eq!(chunks.len(), 2);
    assert!(collect_failed(chunks, &vec![true, true]).is_ok());
}

#[test]
fn failed_chunks_come_back_in_order() {
    let chunks = chunk_logs(vec![tiny_log("a"), tiny_log("b"), tiny_log("c")], 12);
    assert_eq!(chunks.len(), 3);
    let err = collect_failed(chunks, &vec![false, true, false]).unwrap_err();
    let texts: Vec<String> = err.logs.iter().map(|l| l.to_string()).collect();
    assert_eq!(texts, vec![tiny_log("a").to_string(), tiny_log("c").to_string()]);
}

#[test]
fn partial_ship_failure_requeues_the_failed_chunk() {
    let mut queue = new_log_queue();
    queue.append(vec![tiny_log("a"), tiny_log("b"), tiny_log("c"), tiny_log("d")]);

    // A 25-byte cap gives two chunks of two logs each.
    let chunks = logs_api::begin_drain(&mut queue, 25);
    assert_eq!(queue.len(), 0);
    assert_eq!(chunks.len(), 2);
    let failed_chunk: Vec<String> = chunks[1].iter().map(|l| l.to_string()).collect();

    // The second send fails; its chunk, and only it, re-enters the queue.
    let done = logs_api::finish_drain(&mut queue, chunks, &vec![true, false]);
    assert!(!done);
    let left = queue.drain_all();
    let texts: Vec<String> = left.iter().map(|l| l.to_string()).collect();
    assert_eq!(texts, failed_chunk);
}

#[test]
fn drain_of_everything_succeeding_empties_the_queue() {
    let mut queue = new_log_queue();
    queue.append(vec![tiny_log("a"), tiny_log("b")]);
    let chunks = logs_api::begin_drain(&mut queue, 1000);
    assert_eq!(chunks.len(), 1);
    let done = logs_api::finish_drain(&mut queue, chunks, &vec![true]);
    assert!(done);
    assert_eq!(queue.len(), 0);
}
