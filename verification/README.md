# rust_ms

A microservice skeleton: it loads a JSON configuration, talks to Redis,
produces to and consumes from Kafka, serves HTTP with iron and calls itself
with reqwest.

- `src/` is the verified library: the configuration document and the settings
  read from it, the HTTP client's requests and headers, the server's routes
  and handler answers, the Kafka client configurations, and the rendering of
  addresses, URLs and version lines. Calls into serde_json (parsing the configuration text), reqwest (header
  maps), router (route parameters) and rdkafka (client configurations,
  library version) stand behind trusted items with stated contracts.
- `app/` is the program around it: reading the configuration file, Redis,
  the Kafka consumer and producer, the iron server and the HTTP sends.
- `tests/` exercises the library on concrete values.
