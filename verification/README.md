# controle_veiculos

Controle de saída e retorno de veículos leves: quem levou qual veículo, quando
saiu, quando voltou, com que hodômetro, e os relatórios do período.

- `src/` é a biblioteca. Cada função tem contrato (`requires` / `ensures`) e é
  provada pelo Verus: normalização de nome e frota, cadastros parecidos,
  datas e durações, as regras de abertura, encerramento, edição, exclusão e
  fusão, o filtro de viagens, os relatórios em CSV e HTML, a rotação de backup,
  a sequência de abertura da sessão e o lock de um usuário por vez.
- `tests/` exercita a biblioteca com valores concretos.
- `app/` é o programa em volta: linha de comando, SQLite, arquivos, lock do
  sistema operacional e o heartbeat. Ele lê, entrega valores simples à
  biblioteca, e executa o que ela decide.

Os módulos `regras`, `saidas`, `cadastro` e `backup` trazem, além das funções,
as leis que valem entre chamadas (por exemplo: nenhuma abertura aceita deixa um
veículo ou um motorista em duas viagens abertas ao mesmo tempo).
