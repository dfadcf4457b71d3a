use phi_accrual::window::{PingWindow, NANOS_PER_MILLI};

/// Running sums driven by the window's folds.
struct Stats {
    sum: f64,
    sum2: f64,
    n: f64,
}

fn tail(mean: f64, std_dev: f64, x: f64) -> f64 {
    let s = if std_dev < 1.0 { 1.0 } else { std_dev };
    let y = (x - mean) / s;
    let e = (-y * (1.5976 + 0.070566 * y * y)).exp();
    if x > mean {
        e / (1.0 + e)
    } else {
        1.0 - 1.0 / (1.0 + e)
    }
}

fn ping(window: &mut PingWindow, stats: &mut Stats, t: u64) {
    let fold = window.add_ping(t).unwrap();
    if let Some(n) = fold.evicted_from {
        stats.sum = stats.sum / n as f64 * (n - 1) as f64;
        stats.sum2 = stats.sum2 / n as f64 * (n - 1) as f64;
    }
    let v = fold.interval_ms as f64;
    stats.sum += v;
    stats.n = fold.count as f64;
    let mu = stats.sum / stats.n;
    stats.sum2 += (v - mu) * (v - mu);
}

#[test]
fn test_phi_detector() {
    let mut window = PingWindow::new(0);
    let mut stats = Stats { sum: window.prior_ms() as f64, sum2: 0.0, n: 1.0 };
    assert_eq!(stats.sum / stats.n, 5000.0);
    for i in 1..=100u64 {
        ping(&mut window, &mut stats, i * 10 * NANOS_PER_MILLI);
    }
    assert_eq!(window.sample_count(), 101);
    let mean = stats.sum / stats.n;
    let std_dev = (stats.sum2 / stats.n).sqrt();
    let mut elapsed_ms: u64 = 0;
    loop {
        let phi = -tail(mean, std_dev, elapsed_ms as f64).log10();
        if phi > 10.0 {
            break;
        }
        elapsed_ms += 10;
    }
    assert!(elapsed_ms >= 100, "phi crossed 10 after {elapsed_ms} ms");
}
