use peterfan::float_order::float_order_key;
use peterfan::ranking::top_by_key;

struct Proc {
    pid: u32,
    cpu_percent: f32,
    memory: u64,
}

fn proc(pid: u32, cpu: f32, mem: u64) -> Proc {
    Proc { pid, cpu_percent: cpu, memory: mem }
}

fn cpu_key(p: &Proc) -> u64 {
    float_order_key(p.cpu_percent.to_bits()).unwrap_or(0)
}

fn ranked_pids(procs: Vec<Proc>, limit: usize, by_cpu: bool) -> Vec<u32> {
    let keyed: Vec<(u64, Proc)> = procs
        .into_iter()
        .map(|p| (if by_cpu { cpu_key(&p) } else { p.memory }, p))
        .collect();
    top_by_key(keyed, limit).into_iter().map(|(_, p)| p.pid).collect()
}

#[test]
fn top_processes_by_cpu_matches_full_sort_descending() {
    let procs = vec![
        proc(1, 5.0, 100),
        proc(2, 90.0, 50),
        proc(3, 42.0, 999),
        proc(4, 12.0, 10),
        proc(5, 60.0, 1),
    ];
    assert_eq!(ranked_pids(procs, 3, true), vec![2, 5, 3]);
}

#[test]
fn top_processes_by_memory_matches_full_sort_descending() {
    let procs = vec![
        proc(1, 5.0, 100),
        proc(2, 90.0, 50),
        proc(3, 42.0, 999),
        proc(4, 12.0, 10),
    ];
    assert_eq!(ranked_pids(procs, 2, false), vec![3, 1]);
}

#[test]
fn top_processes_limit_larger_than_list_returns_everything_sorted() {
    let procs = vec![proc(1, 5.0, 100), proc(2, 90.0, 50)];
    assert_eq!(ranked_pids(procs, 10, true), vec![2, 1]);
}

#[test]
fn top_by_key_with_zero_limit_is_empty() {
    let items: Vec<(u64, &str)> = vec![(3, "a"), (9, "b")];
    assert!(top_by_key(items, 0).is_empty());
}

#[test]
fn top_by_key_of_empty_list_is_empty() {
    let items: Vec<(u64, u8)> = Vec::new();
    assert!(top_by_key(items, 5).is_empty());
}

#[test]
fn top_by_key_leaves_out_only_smaller_or_equal_keys() {
    let items: Vec<(u64, u32)> = vec![(4, 1), (7, 2), (4, 3), (1, 4), (7, 5), (2, 6)];
    let top = top_by_key(items, 3);
    let keys: Vec<u64> = top.iter().map(|(k, _)| *k).collect();
    assert_eq!(keys, vec![7, 7, 4]);
    let mut tags: Vec<u32> = top.iter().map(|(_, t)| *t).collect();
    tags.sort();
    assert!(tags == vec![1, 2, 5] || tags == vec![2, 3, 5]);
}
