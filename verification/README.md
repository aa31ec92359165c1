# sensor_pipeline

A sensor-processing pipeline: a simulated sensor emits packets every 5 ms, a processor
flags force, temperature and position anomalies and smooths clean packets over a
five-reading window per channel, a transmitter publishes the result to RabbitMQ, and a
logger records timings that are analysed at the end.

- `src/` is the verified library (Verus): comparison of single-precision readings held
  as bit patterns (`reading`), the packet types (`types`), anomaly detection and the
  sliding windows (`processor`), the spike-channel choice of the simulator (`sensor`)
  the stream schedule (`stream`), and the rows of the timing log that the analysis
  counts, read with the `csv` crate (`analyze`).
- `app/` is the program around it: the tokio tasks, RabbitMQ, the CSV log, serde
  copies of the packet types, and the floating-point arithmetic (window means, random
  readings, parsing and statistics of the logged timings).
- `tests/` exercises the library.
