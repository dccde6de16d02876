use pswd::sampler::{draw_indices, sample, select, SampleError};

#[test]
fn test_select_picks_by_index_in_order() {
    let pool = vec!['a', 'b', 'c'];
    let indices: Vec<usize> = vec![2, 0, 1, 1];

    assert_eq!(select(&pool, &indices), Ok("cabb".to_string()));
}

#[test]
fn test_select_nothing_is_the_empty_password() {
    let pool = vec!['a', 'b', 'c'];
    let none: Vec<usize> = Vec::new();
    let empty: Vec<char> = Vec::new();

    assert_eq!(select(&pool, &none), Ok(String::new()));
    assert_eq!(select(&empty, &none), Ok(String::new()));
}

#[test]
fn test_select_outside_the_pool_is_fatal() {
    let pool = vec!['a', 'b', 'c'];
    let empty: Vec<char> = Vec::new();
    let past_end: Vec<usize> = vec![0, 3];
    let first: Vec<usize> = vec![0];

    assert_eq!(select(&pool, &past_end), Err(SampleError::Fatal));
    assert_eq!(select(&empty, &first), Err(SampleError::Fatal));
}

#[test]
fn test_select_keeps_characters_beyond_ascii() {
    let pool = vec!['é', '日'];
    let indices: Vec<usize> = vec![1, 0, 1];

    assert_eq!(select(&pool, &indices), Ok("日é日".to_string()));
}

#[test]
fn test_draw_indices_stay_below_the_bound() {
    let mut rng = rand::thread_rng();

    let indices = draw_indices(&mut rng, 7, 1000).unwrap();

    assert_eq!(indices.len(), 1000);
    assert!(indices.iter().all(|&i| i < 7));
}

#[test]
fn test_draw_indices_with_bound_one_is_all_zero() {
    let mut rng = rand::thread_rng();

    let indices = draw_indices(&mut rng, 1, 20).unwrap();

    assert_eq!(indices, vec![0usize; 20]);
}

#[test]
fn test_draw_indices_of_nothing() {
    let mut rng = rand::thread_rng();

    assert_eq!(draw_indices(&mut rng, 5, 0), Ok(Vec::new()));
    assert_eq!(draw_indices(&mut rng, 0, 0), Ok(Vec::new()));
}

#[test]
fn test_draw_indices_below_zero_is_fatal() {
    let mut rng = rand::thread_rng();

    assert_eq!(draw_indices(&mut rng, 0, 1), Err(SampleError::Fatal));
}

#[test]
fn test_sample_has_the_requested_length() {
    let pool = vec!['x', 'y', 'z'];
    let mut rng = rand::thread_rng();

    for length in [0usize, 1, 100] {
        let pass = sample(&pool, length, &mut rng).unwrap();
        assert_eq!(pass.chars().count(), length);
        assert!(pass.chars().all(|c| pool.contains(&c)));
    }
}

#[test]
fn test_sample_of_one_character_repeats_it() {
    let pool = vec!['q'];
    let mut rng = rand::thread_rng();

    assert_eq!(sample(&pool, 5, &mut rng), Ok("qqqqq".to_string()));
}

#[test]
fn test_sample_empty_pool_zero_length_is_empty() {
    let pool: Vec<char> = Vec::new();
    let mut rng = rand::thread_rng();

    assert_eq!(sample(&pool, 0, &mut rng), Ok(String::new()));
}

#[test]
fn test_sample_empty_pool_is_fatal() {
    let pool: Vec<char> = Vec::new();
    let mut rng = rand::thread_rng();

    assert_eq!(sample(&pool, 1, &mut rng), Err(SampleError::Fatal));
    assert_eq!(sample(&pool, 100, &mut rng), Err(SampleError::Fatal));
}

#[test]
fn test_sample_repeats_characters() {
    let pool = vec!['a', 'b'];
    let mut rng = rand::thread_rng();

    let pass = sample(&pool, 3, &mut rng).unwrap();

    let a = pass.chars().filter(|&c| c == 'a').count();
    let b = pass.chars().filter(|&c| c == 'b').count();
    assert_eq!(a + b, 3);
    assert!(a >= 2 || b >= 2);
}

#[test]
fn test_draw_indices_are_close_to_uniform() {
    let bound: usize = 10;
    let draws: usize = 100_000;
    let mut rng = rand::thread_rng();

    let indices = draw_indices(&mut rng, bound, draws).unwrap();

    let mut counts = vec![0usize; bound];
    for i in indices {
        counts[i] += 1;
    }
    let expected = draws as f64 / bound as f64;
    let chi_square: f64 = counts
        .iter()
        .map(|&seen| {
            let diff = seen as f64 - expected;
            diff * diff / expected
        })
        .sum();
    // Nine degrees of freedom: a fair source passes this bound in all but
    // about one run in ten million.
    assert!(chi_square < 50.0, "chi-square {chi_square} over {counts:?}");
}

#[test]
fn test_sample_is_close_to_uniform_over_the_pool() {
    let pool = vec!['a', 'b', 'c', 'd', 'e', 'f', 'g'];
    let draws: usize = 70_000;
    let mut rng = rand::thread_rng();

    let pass = sample(&pool, draws, &mut rng).unwrap();

    let expected = draws as f64 / pool.len() as f64;
    let mut chi_square: f64 = 0.0;
    for &c in &pool {
        let seen = pass.chars().filter(|&p| p == c).count() as f64;
        chi_square += (seen - expected) * (seen - expected) / expected;
    }
    // Six degrees of freedom.
    assert!(chi_square < 45.0, "chi-square {chi_square}");
}
