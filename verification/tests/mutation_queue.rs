use pi_coding::tools::mutation_queue::{mutation_queue_key, MutationQueue, RealPathError};

#[test]
fn keys_are_real_paths_or_absolute_ones() {
    assert_eq!(mutation_queue_key("/a", &Ok("/real\\a".to_string())), Ok("/real/a".to_string()));
    assert_eq!(
        mutation_queue_key("/a\\b", &Err(RealPathError::Missing)),
        Ok("/a/b".to_string())
    );
    assert_eq!(
        mutation_queue_key("/a", &Err(RealPathError::Other("denied".to_string()))),
        Err("denied".to_string())
    );
}

#[test]
fn drained_files_leave_no_entry() {
    let mut queue = MutationQueue::new();
    assert!(queue.is_drained());
    queue.join("/a");
    queue.join("/a");
    queue.join("/b");
    assert_eq!(queue.waiting("/a"), 2);
    queue.leave("/a");
    assert_eq!(queue.waiting("/a"), 1);
    assert_eq!(queue.waiting("/b"), 1);
    queue.leave("/a");
    queue.leave("/b");
    assert!(queue.is_drained());
    queue.leave("/b");
    assert!(queue.is_drained());
}
