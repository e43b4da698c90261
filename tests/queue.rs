use webserver_rust::{JobQueue, Recv};

fn drain(q: &mut JobQueue<u32>) -> Vec<u32> {
    let mut out = Vec::new();
    loop {
        match q.receive() {
            Recv::Job(j) => out.push(j),
            Recv::Empty => panic!("a closed queue never answers Empty"),
            Recv::Closed => return out,
        }
    }
}

#[test]
fn new_queue_is_open_and_empty() {
    let mut q: JobQueue<u32> = JobQueue::new();
    assert!(q.accepts());
    assert_eq!(q.len(), 0);
    assert!(matches!(q.receive(), Recv::Empty));
}

#[test]
fn jobs_come_out_in_submission_order() {
    let mut q = JobQueue::new();
    for j in [7u32, 3, 9] {
        assert!(q.submit(j).is_ok());
    }
    assert_eq!(q.len(), 3);
    assert!(matches!(q.receive(), Recv::Job(7)));
    assert!(matches!(q.receive(), Recv::Job(3)));
    assert!(matches!(q.receive(), Recv::Job(9)));
    assert!(matches!(q.receive(), Recv::Empty));
}

#[test]
fn every_job_delivered_exactly_once() {
    let mut q = JobQueue::new();
    for j in 0..50u32 {
        assert!(q.submit(j).is_ok());
    }
    q.close();
    let out = drain(&mut q);
    assert_eq!(out, (0..50u32).collect::<Vec<u32>>());
}

#[test]
fn interleaved_producers_lose_and_duplicate_nothing() {
    let mut q = JobQueue::new();
    let mut all: Vec<u32> = Vec::new();
    // Two producers take turns: one submits even ids, the other odd ids,
    // while a consumer takes a job now and then.
    for k in 0..20u32 {
        assert!(q.submit(2 * k).is_ok());
        assert!(q.submit(2 * k + 1).is_ok());
        if k % 3 == 0 {
            match q.receive() {
                Recv::Job(j) => all.push(j),
                _ => panic!("a job was pending"),
            }
        }
    }
    q.close();
    all.extend(drain(&mut q));
    let mut seen = vec![0u32; 40];
    for j in &all {
        seen[*j as usize] += 1;
    }
    assert!(seen.iter().all(|&c| c == 1));
    let evens: Vec<u32> = all.iter().copied().filter(|j| j % 2 == 0).collect();
    let odds: Vec<u32> = all.iter().copied().filter(|j| j % 2 == 1).collect();
    assert!(evens.windows(2).all(|w| w[0] < w[1]));
    assert!(odds.windows(2).all(|w| w[0] < w[1]));
}

#[test]
fn pending_jobs_survive_close() {
    let mut q = JobQueue::new();
    assert!(q.submit(1u32).is_ok());
    assert!(q.submit(2u32).is_ok());
    q.close();
    assert!(!q.accepts());
    assert_eq!(q.len(), 2);
    assert!(matches!(q.receive(), Recv::Job(1)));
    assert!(matches!(q.receive(), Recv::Job(2)));
    assert!(matches!(q.receive(), Recv::Closed));
    assert!(matches!(q.receive(), Recv::Closed));
}

#[test]
fn submit_after_close_hands_the_job_back() {
    let mut q = JobQueue::new();
    q.close();
    assert_eq!(q.submit(42u32), Err(42));
    assert_eq!(q.len(), 0);
    assert!(matches!(q.receive(), Recv::Closed));
}
